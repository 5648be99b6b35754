use ping_engine::addr::Ipv4Address;
use ping_engine::config::ConfigError;
use ping_engine::config::PingConfiguration;
use ping_engine::engine::EngineAction;
use ping_engine::engine::PingEngine;
use ping_engine::interrupt::InterruptController;
use ping_engine::interrupt::InterruptSignal;
use ping_engine::interrupt::CTRL_BREAK_EVENT_CODE;
use ping_engine::interrupt::CTRL_C_EVENT_CODE;
use ping_engine::outcome::EchoOutcome;
use ping_engine::stats::Statistics;
use ping_engine::stats::Summary;

fn test_destination() -> Ipv4Address {
    Ipv4Address { a: 192, b: 0, c: 2, d: 1 }
}

fn config_with_count(count: u32) -> PingConfiguration {
    PingConfiguration {
        destination: test_destination(),
        repeat_until_stopped: false,
        count,
        payload_size: 32,
        dont_fragment: false,
        ttl: 100,
        timeout_ms: 4000,
        source: None,
    }
}

fn replied(rtt: u32) -> EchoOutcome {
    EchoOutcome::Replied { round_trip_time: rtt, ttl_observed: 57 }
}

fn idle_replies(n: usize, rtt: u32) -> Vec<(InterruptSignal, EchoOutcome)> {
    let mut script = Vec::new();
    for _ in 0..n {
        script.push((InterruptSignal::Idle, replied(rtt)));
    }
    script
}

#[test]
fn all_replies_summary() {
    // count=4, size=32, ttl=100, timeout=4000ms; every exchange replies in 10ms
    let cfg = config_with_count(4);
    let script = idle_replies(5, 10);
    let (summary, displays) = PingEngine::run_script(cfg, &script);
    assert_eq!(
        summary,
        Summary {
            sent: 4,
            received: 4,
            lost: 0,
            loss_percent: 0,
            rtt_min: Some(10),
            rtt_max: Some(10),
            rtt_avg: Some(10),
        }
    );
    assert_eq!(displays, 0);
}

#[test]
fn timeout_on_third_exchange_summary() {
    // same configuration, but the transport times out on exchange 3 only
    let cfg = config_with_count(4);
    let script = vec![
        (InterruptSignal::Idle, replied(10)),
        (InterruptSignal::Idle, replied(10)),
        (InterruptSignal::Idle, EchoOutcome::TimedOut),
        (InterruptSignal::Idle, replied(10)),
        (InterruptSignal::Idle, replied(10)),
    ];
    let (summary, _) = PingEngine::run_script(cfg, &script);
    assert_eq!(summary.sent, 4);
    assert_eq!(summary.received, 3);
    assert_eq!(summary.lost, 1);
    assert_eq!(summary.loss_percent, 25);
}

#[test]
fn bounded_run_sends_exactly_count() {
    let cfg = config_with_count(3);
    // plenty of schedule left over: the run still stops at the count
    let script = idle_replies(10, 7);
    let (summary, _) = PingEngine::run_script(cfg, &script);
    assert_eq!(summary.sent, 3);
    assert_eq!(summary.received, 3);
}

#[test]
fn replies_never_exceed_requests() {
    let cfg = config_with_count(6);
    let script = vec![
        (InterruptSignal::Idle, replied(1)),
        (InterruptSignal::Idle, EchoOutcome::TimedOut),
        (InterruptSignal::Idle, replied(3)),
        (InterruptSignal::Idle, EchoOutcome::TimedOut),
        (InterruptSignal::Idle, EchoOutcome::TimedOut),
        (InterruptSignal::Idle, replied(2)),
        (InterruptSignal::Idle, replied(2)),
    ];
    let (summary, _) = PingEngine::run_script(cfg, &script);
    // the run finishes at its count of 6; the seventh entry is never used
    assert_eq!(summary.sent, 6);
    assert!(summary.received <= summary.sent);
    assert_eq!(summary.received, 3);
}

#[test]
fn stop_between_exchanges_halts_immediately() {
    // stop observed between exchange 2 and 3: exactly 2 exchanges happen
    let cfg = config_with_count(10);
    let script = vec![
        (InterruptSignal::Idle, replied(5)),
        (InterruptSignal::Idle, replied(5)),
        (InterruptSignal::StopRequested, replied(5)),
        (InterruptSignal::Idle, replied(5)),
    ];
    let (summary, displays) = PingEngine::run_script(cfg, &script);
    assert_eq!(summary.sent, 2);
    assert_eq!(summary.received, 2);
    assert_eq!(displays, 0);
}

#[test]
fn stop_before_first_exchange_sends_nothing() {
    let cfg = config_with_count(4);
    let script = vec![
        (InterruptSignal::StopRequested, replied(5)),
        (InterruptSignal::Idle, replied(5)),
    ];
    let (summary, displays) = PingEngine::run_script(cfg, &script);
    assert_eq!(summary.sent, 0);
    assert_eq!(summary.received, 0);
    assert_eq!(summary.loss_percent, 0);
    assert_eq!(summary.rtt_min, None);
    assert_eq!(summary.rtt_max, None);
    assert_eq!(summary.rtt_avg, None);
    assert_eq!(displays, 0);
}

#[test]
fn display_does_not_consume_a_request_slot() {
    let cfg = config_with_count(4);
    let without_display = idle_replies(5, 10);
    let mut with_display = idle_replies(5, 10);
    with_display.insert(2, (InterruptSignal::DisplayRequested, replied(99)));
    let (plain, plain_displays) = PingEngine::run_script(cfg, &without_display);
    let (displayed, displays) = PingEngine::run_script(cfg, &with_display);
    assert_eq!(plain, displayed);
    assert_eq!(plain_displays, 0);
    assert_eq!(displays, 1);
}

#[test]
fn display_then_resume_keeps_pinging() {
    let cfg = config_with_count(2);
    let script = vec![
        (InterruptSignal::DisplayRequested, replied(9)),
        (InterruptSignal::Idle, replied(9)),
        (InterruptSignal::DisplayRequested, replied(9)),
        (InterruptSignal::Idle, replied(9)),
        (InterruptSignal::Idle, replied(9)),
    ];
    let (summary, displays) = PingEngine::run_script(cfg, &script);
    assert_eq!(summary.sent, 2);
    assert_eq!(summary.received, 2);
    assert_eq!(displays, 2);
}

#[test]
fn repeat_until_stopped_ignores_count() {
    let cfg = PingConfiguration {
        repeat_until_stopped: true,
        count: 0,
        ..config_with_count(0)
    };
    let mut script = idle_replies(25, 3);
    script.push((InterruptSignal::StopRequested, replied(3)));
    let (summary, _) = PingEngine::run_script(cfg, &script);
    assert_eq!(summary.sent, 25);
    assert_eq!(summary.received, 25);
}

#[test]
fn average_is_sum_over_replies() {
    let cfg = config_with_count(3);
    let script = vec![
        (InterruptSignal::Idle, replied(3)),
        (InterruptSignal::Idle, replied(4)),
        (InterruptSignal::Idle, replied(8)),
        (InterruptSignal::Idle, replied(1)),
    ];
    let (summary, _) = PingEngine::run_script(cfg, &script);
    // (3 + 4 + 8) / 3 = 5
    assert_eq!(summary.rtt_avg, Some(5));
    assert_eq!(summary.rtt_min, Some(3));
    assert_eq!(summary.rtt_max, Some(8));
}

#[test]
fn average_undefined_without_replies() {
    let cfg = config_with_count(2);
    let script = vec![
        (InterruptSignal::Idle, EchoOutcome::TimedOut),
        (InterruptSignal::Idle, EchoOutcome::TimedOut),
        (InterruptSignal::Idle, EchoOutcome::TimedOut),
    ];
    let (summary, _) = PingEngine::run_script(cfg, &script);
    assert_eq!(summary.sent, 2);
    assert_eq!(summary.received, 0);
    assert_eq!(summary.lost, 2);
    assert_eq!(summary.loss_percent, 100);
    assert_eq!(summary.rtt_avg, None);
}

#[test]
fn transport_failure_is_a_lost_packet_not_an_abort() {
    let cfg = config_with_count(3);
    let script = vec![
        (InterruptSignal::Idle, replied(6)),
        (
            InterruptSignal::Idle,
            EchoOutcome::TransportFailed {
                error: ping_engine::outcome::TransportError::Platform { code: 11050 },
            },
        ),
        (InterruptSignal::Idle, replied(6)),
        (InterruptSignal::Idle, replied(6)),
    ];
    let (summary, _) = PingEngine::run_script(cfg, &script);
    assert_eq!(summary.sent, 3);
    assert_eq!(summary.received, 2);
    assert_eq!(summary.lost, 1);
}

#[test]
fn decide_stop_wins_over_pending_display() {
    // both signals pending at once: the poll reports the stop and the
    // engine finishes without printing statistics
    let mut controller = InterruptController::new();
    controller.request_display();
    controller.request_stop();
    let signal = controller.poll();
    assert_eq!(signal, InterruptSignal::StopRequested);
    let engine = PingEngine::new(config_with_count(4));
    let action = engine.decide(signal);
    assert!(matches!(action, EngineAction::Finish));
}

#[test]
fn poll_clears_display_but_not_stop() {
    let mut controller = InterruptController::new();
    controller.request_display();
    assert_eq!(controller.poll(), InterruptSignal::DisplayRequested);
    // acting on the display request consumed it
    assert_eq!(controller.poll(), InterruptSignal::Idle);
    controller.request_stop();
    assert_eq!(controller.poll(), InterruptSignal::StopRequested);
    // a stop is terminal: it stays pending
    assert_eq!(controller.poll(), InterruptSignal::StopRequested);
}

#[test]
fn control_codes_map_to_signals() {
    let mut controller = InterruptController::new();
    assert!(!controller.handle_control_event(7));
    assert_eq!(controller.poll(), InterruptSignal::Idle);
    assert!(controller.handle_control_event(CTRL_BREAK_EVENT_CODE));
    assert_eq!(controller.poll(), InterruptSignal::DisplayRequested);
    assert!(controller.handle_control_event(CTRL_C_EVENT_CODE));
    assert_eq!(controller.poll(), InterruptSignal::StopRequested);
}

#[test]
fn decide_issues_exchange_with_config_parameters() {
    let engine = PingEngine::new(config_with_count(4));
    let action = engine.decide(InterruptSignal::Idle);
    assert!(matches!(
        action,
        EngineAction::Exchange { ttl: 100, dont_fragment: false, payload_size: 32, timeout_ms: 4000 }
    ));
}

#[test]
fn decide_finishes_when_count_reached() {
    let cfg = config_with_count(1);
    let mut engine = PingEngine::new(cfg);
    assert!(matches!(engine.decide(InterruptSignal::Idle), EngineAction::Exchange { .. }));
    engine.record_outcome(&replied(2));
    assert!(matches!(engine.decide(InterruptSignal::Idle), EngineAction::Finish));
    // a display request is still honored after completion
    assert!(matches!(
        engine.decide(InterruptSignal::DisplayRequested),
        EngineAction::PrintStatistics
    ));
}

#[test]
fn config_rejects_zero_count_without_repeat() {
    let r = PingConfiguration::build(test_destination(), false, 0, 32, false, 128, 4000, None);
    assert!(matches!(r, Err(ConfigError::ZeroRequestCount)));
    let r = PingConfiguration::build(test_destination(), true, 0, 32, false, 128, 4000, None);
    assert!(r.is_ok());
    let r = PingConfiguration::build(test_destination(), false, 1, 32, false, 128, 4000, None);
    assert!(r.is_ok());
}

#[test]
fn config_defaults_match_the_command_line_defaults() {
    let cfg = PingConfiguration::with_defaults(test_destination());
    assert_eq!(cfg.count, 4);
    assert_eq!(cfg.payload_size, 32);
    assert_eq!(cfg.timeout_ms, 4000);
    assert_eq!(cfg.ttl, 128);
    assert!(!cfg.repeat_until_stopped);
    assert!(!cfg.dont_fragment);
    assert!(cfg.source.is_none());
}

#[test]
fn statistics_record_and_snapshot() {
    let mut stats = Statistics::new();
    let empty = stats.snapshot();
    assert_eq!(empty.sent, 0);
    assert_eq!(empty.loss_percent, 0);
    assert_eq!(empty.rtt_min, None);
    stats.record(&replied(20));
    stats.record(&EchoOutcome::TimedOut);
    stats.record(&replied(10));
    let s = stats.snapshot();
    assert_eq!(s.sent, 3);
    assert_eq!(s.received, 2);
    assert_eq!(s.lost, 1);
    assert_eq!(s.loss_percent, 33);
    assert_eq!(s.rtt_min, Some(10));
    assert_eq!(s.rtt_max, Some(20));
    assert_eq!(s.rtt_avg, Some(15));
}
