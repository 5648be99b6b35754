//! The scheduling loop. At the top of each iteration no exchange is in
//! flight; the engine polls the interrupt state, decides whether to stop,
//! print statistics, or issue one exchange, and folds each exchange's outcome
//! into the accumulator.
//!
//! The decision rule and the per-outcome bookkeeping are plain functions
//! here, so the whole loop is stated — and verified — against a run model:
//! [`spec_run`] gives, for any schedule of polled signals and transport
//! outcomes, exactly which exchanges the loop performs and how it ends.
//! [`PingEngine::run_script`] drives the real loop over such a schedule; the
//! application layer drives the same decisions against the live transport,
//! performing the action the engine decides and handing back the outcome.

use vstd::prelude::*;

use crate::config::PingConfiguration;
use crate::interrupt::InterruptController;
use crate::interrupt::InterruptSignal;
use crate::outcome::EchoOutcome;
use crate::stats::lemma_requests_and_replies;
use crate::stats::stats_after;
use crate::stats::Statistics;
use crate::stats::Summary;

verus! {

/// What the engine decides to do at the top of one loop iteration.
#[derive(Clone, Copy, Debug)]
pub enum EngineAction {
    /// Issue one exchange with these request parameters. The call may block
    /// up to the timeout, never longer.
    Exchange { ttl: u8, dont_fragment: bool, payload_size: u16, timeout_ms: u32 },
    /// Print a snapshot of the statistics, without resetting them, and
    /// continue; consumes no request slot.
    PrintStatistics,
    /// Leave the loop; the final summary follows.
    Finish,
}

/// A bounded run is complete once it has sent its configured count.
pub open spec fn spec_complete(cfg: PingConfiguration, sent: nat) -> bool {
    !cfg.repeat_until_stopped && sent >= cfg.count
}

/// The decision rule for one iteration, given how many requests were sent so
/// far and the polled signal: a stop ends the loop before any further
/// exchange; a display request prints and continues; otherwise one exchange
/// is issued unless the run is complete.
pub open spec fn spec_decide(
    cfg: PingConfiguration,
    sent: nat,
    signal: InterruptSignal,
) -> EngineAction {
    match signal {
        InterruptSignal::StopRequested => EngineAction::Finish,
        InterruptSignal::DisplayRequested => EngineAction::PrintStatistics,
        InterruptSignal::Idle => if spec_complete(cfg, sent) {
            EngineAction::Finish
        } else {
            EngineAction::Exchange {
                ttl: cfg.ttl,
                dont_fragment: cfg.dont_fragment,
                payload_size: cfg.payload_size,
                timeout_ms: cfg.timeout_ms,
            }
        },
    }
}

/// What a run of the loop did: the outcome of every exchange it performed,
/// in order, how many interim displays it printed, and how it ended.
pub ghost struct RunTrace {
    pub exchanges: Seq<EchoOutcome>,
    pub displays: nat,
    /// The loop reached its exit within the schedule.
    pub finished: bool,
    /// It exited on a stop request (otherwise: its count was reached).
    pub stopped: bool,
}

/// The loop run against a schedule, with `sent` requests already sent: entry
/// `t` gives the signal the poll at iteration `t` observes and the outcome
/// the transport returns if an exchange is issued then. A schedule that runs
/// out leaves the run unfinished.
pub open spec fn spec_run(
    cfg: PingConfiguration,
    script: Seq<(InterruptSignal, EchoOutcome)>,
    sent: nat,
) -> RunTrace
    decreases script.len(),
{
    if script.len() == 0 {
        RunTrace { exchanges: Seq::empty(), displays: 0, finished: false, stopped: false }
    } else {
        match spec_decide(cfg, sent, script[0].0) {
            EngineAction::Finish => RunTrace {
                exchanges: Seq::empty(),
                displays: 0,
                finished: true,
                stopped: script[0].0 is StopRequested,
            },
            EngineAction::PrintStatistics => {
                let rest = spec_run(cfg, script.drop_first(), sent);
                RunTrace {
                    exchanges: rest.exchanges,
                    displays: rest.displays + 1,
                    finished: rest.finished,
                    stopped: rest.stopped,
                }
            },
            EngineAction::Exchange { .. } => {
                let rest = spec_run(cfg, script.drop_first(), sent + 1);
                RunTrace {
                    exchanges: seq![script[0].1] + rest.exchanges,
                    displays: rest.displays,
                    finished: rest.finished,
                    stopped: rest.stopped,
                }
            },
        }
    }
}

/// The scheduling loop's state: the immutable configuration and the
/// statistics accumulated so far.
pub struct PingEngine {
    pub config: PingConfiguration,
    pub stats: Statistics,
}

impl PingEngine {
    pub open spec fn wf(self) -> bool {
        self.config.wf() && self.stats.wf()
    }

    /// A fresh engine for one run, with nothing sent yet. The transport
    /// handle itself stays with the caller: a setup failure there is fatal
    /// and the loop is never entered.
    pub fn new(config: PingConfiguration) -> (e: PingEngine)
        requires
            config.wf(),
        ensures
            e.config == config,
            e.stats == Statistics::spec_new(),
            e.wf(),
    {
        PingEngine { config, stats: Statistics::new() }
    }

    /// Decide this iteration's action from the polled signal.
    pub fn decide(&self, signal: InterruptSignal) -> (a: EngineAction)
        ensures
            a == spec_decide(self.config, self.stats.requests_sent as nat, signal),
    {
        match signal {
            InterruptSignal::StopRequested => EngineAction::Finish,
            InterruptSignal::DisplayRequested => EngineAction::PrintStatistics,
            InterruptSignal::Idle => {
                if !self.config.repeat_until_stopped && self.stats.requests_sent
                    >= self.config.count as u64 {
                    EngineAction::Finish
                } else {
                    EngineAction::Exchange {
                        ttl: self.config.ttl,
                        dont_fragment: self.config.dont_fragment,
                        payload_size: self.config.payload_size,
                        timeout_ms: self.config.timeout_ms,
                    }
                }
            },
        }
    }

    /// Fold the outcome of the exchange this iteration issued into the
    /// statistics; called exactly once per exchange, strictly after the
    /// exchange completed.
    pub fn record_outcome(&mut self, outcome: &EchoOutcome)
        requires
            old(self).wf(),
            old(self).stats.requests_sent < u64::MAX,
        ensures
            final(self).config == old(self).config,
            final(self).stats == old(self).stats.spec_record(*outcome),
            final(self).wf(),
    {
        self.stats.record(outcome);
    }

    /// The summary of everything recorded so far: read on a display request
    /// and once more at loop exit. Never resets anything.
    pub fn summary(&self) -> (s: Summary)
        requires
            self.wf(),
        ensures
            s == self.stats.spec_snapshot(),
    {
        self.stats.snapshot()
    }

    /// Drive the whole loop against a scripted transport and interrupt
    /// schedule; returns the final summary and how many interim displays the
    /// run printed. The run performs exactly the exchanges of the run model
    /// and its summary is the fold of their outcomes.
    pub fn run_script(
        config: PingConfiguration,
        script: &Vec<(InterruptSignal, EchoOutcome)>,
    ) -> (r: (Summary, u64))
        requires
            config.wf(),
            script@.len() < u64::MAX,
        ensures
            r.0 == stats_after(spec_run(config, script@, 0).exchanges).spec_snapshot(),
            r.0.sent == spec_run(config, script@, 0).exchanges.len(),
            r.0.received <= r.0.sent,
            r.1 == spec_run(config, script@, 0).displays,
    {
        let ghost full: RunTrace = spec_run(config, script@, 0);
        let mut engine = PingEngine::new(config);
        let ghost mut done: Seq<EchoOutcome> = Seq::empty();
        let mut displays: u64 = 0;
        let mut t: usize = 0;
        proof {
            assert(script@.skip(0) =~= script@);
            assert(Seq::<EchoOutcome>::empty() + full.exchanges =~= full.exchanges);
        }
        while t < script.len()
            invariant_except_break
                script@.len() < u64::MAX,
                t <= script@.len(),
                engine.wf(),
                engine.config == config,
                engine.stats == stats_after(done),
                engine.stats.requests_sent == done.len(),
                done.len() <= t,
                displays <= t,
                full == spec_run(config, script@, 0),
                full.exchanges == done + spec_run(
                    config,
                    script@.skip(t as int),
                    done.len(),
                ).exchanges,
                full.displays == displays + spec_run(
                    config,
                    script@.skip(t as int),
                    done.len(),
                ).displays,
            ensures
                engine.wf(),
                engine.stats == stats_after(full.exchanges),
                full.exchanges.len() <= script@.len(),
                displays == full.displays,
            decreases script@.len() - t,
        {
            let sig = script[t].0;
            let out = script[t].1;
            proof {
                assert(script@.skip(t as int).len() > 0);
                assert(script@.skip(t as int)[0] == script@[t as int]);
                assert(script@.skip(t as int).drop_first() =~= script@.skip(t as int + 1));
            }
            let action = engine.decide(sig);
            match action {
                EngineAction::Finish => {
                    proof {
                        assert(full.exchanges =~= done);
                    }
                    break ;
                },
                EngineAction::PrintStatistics => {
                    // the snapshot an interim display would print; the caller
                    // of the scripted run has no console, so it is dropped
                    let _ = engine.summary();
                    displays = displays + 1;
                },
                EngineAction::Exchange { .. } => {
                    engine.record_outcome(&out);
                    proof {
                        let rest = spec_run(config, script@.skip(t as int + 1), done.len() + 1);
                        assert(done + (seq![out] + rest.exchanges) =~= done.push(out)
                            + rest.exchanges);
                        assert(done.push(out).drop_last() =~= done);
                        assert(done.push(out).last() == out);
                        done = done.push(out);
                    }
                },
            }
            t = t + 1;
        }
        proof {
            lemma_requests_and_replies(full.exchanges);
        }
        let s = engine.summary();
        (s, displays)
    }
}

proof fn lemma_exact_count_from(
    cfg: PingConfiguration,
    script: Seq<(InterruptSignal, EchoOutcome)>,
    sent: nat,
)
    requires
        !cfg.repeat_until_stopped,
        forall|j: int| 0 <= j < script.len() ==> script[j].0 is Idle,
        sent <= cfg.count,
        script.len() > cfg.count - sent,
    ensures
        spec_run(cfg, script, sent).exchanges.len() == cfg.count - sent,
        spec_run(cfg, script, sent).finished,
        !spec_run(cfg, script, sent).stopped,
        spec_run(cfg, script, sent).displays == 0,
    decreases script.len(),
{
    assert(script[0].0 is Idle);
    if sent < cfg.count {
        let rest = script.drop_first();
        assert forall|j: int| 0 <= j < rest.len() implies rest[j].0 is Idle by {
            assert(rest[j] == script[j + 1]);
        }
        lemma_exact_count_from(cfg, rest, sent + 1);
    }
}

/// Law: with repeat-until-stopped off and no interrupt arriving, a schedule
/// long enough performs exactly the configured count of exchanges, then
/// finishes on its own, printing no interim statistics.
pub proof fn lemma_uninterrupted_run_sends_count(
    cfg: PingConfiguration,
    script: Seq<(InterruptSignal, EchoOutcome)>,
)
    requires
        !cfg.repeat_until_stopped,
        forall|j: int| 0 <= j < script.len() ==> script[j].0 is Idle,
        script.len() > cfg.count,
    ensures
        spec_run(cfg, script, 0).exchanges.len() == cfg.count,
        spec_run(cfg, script, 0).finished,
        !spec_run(cfg, script, 0).stopped,
        spec_run(cfg, script, 0).displays == 0,
{
    lemma_exact_count_from(cfg, script, 0);
}

proof fn lemma_stop_halts_from(
    cfg: PingConfiguration,
    script: Seq<(InterruptSignal, EchoOutcome)>,
    i: int,
    sent: nat,
)
    requires
        0 <= i < script.len(),
        script[i].0 is StopRequested,
        forall|j: int| 0 <= j < i ==> script[j].0 is Idle,
        cfg.repeat_until_stopped || sent + i <= cfg.count,
    ensures
        spec_run(cfg, script, sent).exchanges.len() == i,
        spec_run(cfg, script, sent).finished,
        spec_run(cfg, script, sent).stopped,
        spec_run(cfg, script, sent).displays == 0,
    decreases i,
{
    if i > 0 {
        assert(script[0].0 is Idle);
        let rest = script.drop_first();
        assert forall|j: int| 0 <= j < i - 1 implies rest[j].0 is Idle by {
            assert(rest[j] == script[j + 1]);
        }
        assert(rest[i - 1] == script[i]);
        lemma_stop_halts_from(cfg, rest, i - 1, sent + 1);
    }
}

/// Law: a stop request observed between exchange `i` and `i+1` — the first
/// `i` polls idle, the poll after them seeing the stop — halts a loop that
/// was still running after exactly `i` exchanges: exchange `i+1` is never
/// issued, and no statistics are dumped on the way out.
pub proof fn lemma_stop_halts_run(
    cfg: PingConfiguration,
    script: Seq<(InterruptSignal, EchoOutcome)>,
    i: int,
)
    requires
        0 <= i < script.len(),
        script[i].0 is StopRequested,
        forall|j: int| 0 <= j < i ==> script[j].0 is Idle,
        cfg.repeat_until_stopped || i <= cfg.count,
    ensures
        spec_run(cfg, script, 0).exchanges.len() == i,
        spec_run(cfg, script, 0).finished,
        spec_run(cfg, script, 0).stopped,
        spec_run(cfg, script, 0).displays == 0,
{
    lemma_stop_halts_from(cfg, script, i, 0);
}

proof fn lemma_display_transparent_from(
    cfg: PingConfiguration,
    script: Seq<(InterruptSignal, EchoOutcome)>,
    i: int,
    entry: (InterruptSignal, EchoOutcome),
    sent: nat,
)
    requires
        0 <= i <= script.len(),
        entry.0 is DisplayRequested,
    ensures
        spec_run(cfg, script.insert(i, entry), sent).exchanges == spec_run(
            cfg,
            script,
            sent,
        ).exchanges,
        spec_run(cfg, script.insert(i, entry), sent).finished == spec_run(
            cfg,
            script,
            sent,
        ).finished,
        spec_run(cfg, script.insert(i, entry), sent).stopped == spec_run(cfg, script, sent).stopped,
    decreases i,
{
    let s2 = script.insert(i, entry);
    if i == 0 {
        assert(s2[0] == entry);
        assert(s2.drop_first() =~= script);
    } else {
        assert(s2[0] == script[0]);
        assert(s2.drop_first() =~= script.drop_first().insert(i - 1, entry));
        match spec_decide(cfg, sent, script[0].0) {
            EngineAction::Finish => {
            },
            EngineAction::PrintStatistics => {
                lemma_display_transparent_from(cfg, script.drop_first(), i - 1, entry, sent);
            },
            EngineAction::Exchange { .. } => {
                lemma_display_transparent_from(cfg, script.drop_first(), i - 1, entry, sent + 1);
                assert(s2[0].1 == script[0].1);
            },
        }
    }
}

/// Law: a display request observed between exchange `i` and `i+1` alters
/// nothing of the run: the loop with it performs the same exchanges — so the
/// same requests sent, the same replies received — and ends the same way as
/// the loop without it; it only prints and resumes pinging.
pub proof fn lemma_display_leaves_run_unchanged(
    cfg: PingConfiguration,
    script: Seq<(InterruptSignal, EchoOutcome)>,
    i: int,
    entry: (InterruptSignal, EchoOutcome),
)
    requires
        0 <= i <= script.len(),
        entry.0 is DisplayRequested,
    ensures
        spec_run(cfg, script.insert(i, entry), 0).exchanges == spec_run(cfg, script, 0).exchanges,
        spec_run(cfg, script.insert(i, entry), 0).finished == spec_run(cfg, script, 0).finished,
        spec_run(cfg, script.insert(i, entry), 0).stopped == spec_run(cfg, script, 0).stopped,
{
    lemma_display_transparent_from(cfg, script, i, entry, 0);
}

/// Law: when both a stop and a display request are pending at a poll, the
/// stop wins: the polled signal is the stop request, and the decision on it
/// is to leave the loop — no statistics are dumped first.
pub proof fn lemma_pending_stop_overrides_display(
    c: InterruptController,
    cfg: PingConfiguration,
    sent: nat,
)
    requires
        c.stop_pending,
        c.display_pending,
    ensures
        c.spec_poll_signal() is StopRequested,
        spec_decide(cfg, sent, c.spec_poll_signal()) is Finish,
{
}

} // verus!
