//! The statistics accumulator: pure bookkeeping over the outcomes of the
//! exchanges, no I/O. It keeps the counters and timing aggregates, and a
//! ghost record of every round-trip time it has folded in, so that the
//! aggregates can be stated against the full history even though only the
//! running min/max/sum is stored (the store stays bounded under
//! repeat-until-stopped sessions).

use vstd::prelude::*;

use crate::outcome::EchoOutcome;

verus! {

/// Sum of a sequence of round-trip times, as a mathematical integer.
pub open spec fn sum_rtts(s: Seq<u32>) -> int
    decreases s.len(),
{
    if s.len() == 0 {
        0
    } else {
        sum_rtts(s.drop_last()) + s.last()
    }
}

/// Least element of a non-empty sequence of round-trip times (0 if empty).
pub open spec fn min_rtts(s: Seq<u32>) -> int
    decreases s.len(),
{
    if s.len() == 0 {
        0
    } else if s.len() == 1 {
        s.last() as int
    } else if s.last() < min_rtts(s.drop_last()) {
        s.last() as int
    } else {
        min_rtts(s.drop_last())
    }
}

/// Greatest element of a non-empty sequence of round-trip times (0 if empty).
pub open spec fn max_rtts(s: Seq<u32>) -> int
    decreases s.len(),
{
    if s.len() == 0 {
        0
    } else if s.len() == 1 {
        s.last() as int
    } else if s.last() > max_rtts(s.drop_last()) {
        s.last() as int
    } else {
        max_rtts(s.drop_last())
    }
}

/// The final or interim report computed from the accumulator: counts, loss
/// percentage, and min/avg/max round-trip time. The timing entries are `None`
/// when no reply was received, so the report never divides by zero.
#[derive(Clone, Copy, Debug, PartialEq, Eq)]
pub struct Summary {
    pub sent: u64,
    pub received: u64,
    pub lost: u64,
    pub loss_percent: u64,
    pub rtt_min: Option<u32>,
    pub rtt_max: Option<u32>,
    pub rtt_avg: Option<u64>,
}

/// Counters and timing aggregates, updated once per completed exchange.
#[derive(Clone, Copy)]
pub struct Statistics {
    pub requests_sent: u64,
    pub replies_received: u64,
    /// Sum of all recorded round-trip times; saturates at `u64::MAX` so a
    /// repeat-until-stopped session can never overflow it.
    pub rtt_sum: u64,
    pub rtt_min: u32,
    pub rtt_max: u32,
    /// Every round-trip time recorded so far, in order.
    pub rtts: Ghost<Seq<u32>>,
}

impl Statistics {
    /// The accumulator is exactly the fold of its recorded history: one
    /// history entry per reply, never more replies than requests, and the
    /// stored aggregates agree with the history (the sum up to saturation).
    pub open spec fn wf(self) -> bool {
        &&& self.replies_received == self.rtts@.len()
        &&& self.replies_received <= self.requests_sent
        &&& self.rtt_sum == if sum_rtts(self.rtts@) <= u64::MAX {
            sum_rtts(self.rtts@)
        } else {
            u64::MAX as int
        }
        &&& self.replies_received > 0 ==> self.rtt_min == min_rtts(self.rtts@)
            && self.rtt_max == max_rtts(self.rtts@)
    }

    pub open spec fn spec_new() -> Statistics {
        Statistics {
            requests_sent: 0,
            replies_received: 0,
            rtt_sum: 0,
            rtt_min: 0,
            rtt_max: 0,
            rtts: Ghost(Seq::empty()),
        }
    }

    /// The accumulator after folding in one more outcome: a reply bumps both
    /// counters and the aggregates, a timeout or failure only the request
    /// count (it is a lost packet).
    pub open spec fn spec_record(self, o: EchoOutcome) -> Statistics {
        match o {
            EchoOutcome::Replied { round_trip_time: rtt, ttl_observed: _ } => Statistics {
                requests_sent: (self.requests_sent + 1) as u64,
                replies_received: (self.replies_received + 1) as u64,
                rtt_sum: if self.rtt_sum + rtt <= u64::MAX {
                    (self.rtt_sum + rtt) as u64
                } else {
                    u64::MAX
                },
                rtt_min: if self.replies_received == 0 || rtt < self.rtt_min {
                    rtt
                } else {
                    self.rtt_min
                },
                rtt_max: if self.replies_received == 0 || rtt > self.rtt_max {
                    rtt
                } else {
                    self.rtt_max
                },
                rtts: Ghost(self.rtts@.push(rtt)),
            },
            _ => Statistics { requests_sent: (self.requests_sent + 1) as u64, ..self },
        }
    }

    /// The report projected from the current state.
    pub open spec fn spec_snapshot(self) -> Summary {
        Summary {
            sent: self.requests_sent,
            received: self.replies_received,
            lost: (self.requests_sent - self.replies_received) as u64,
            loss_percent: if self.requests_sent == 0 {
                0u64
            } else {
                ((self.requests_sent - self.replies_received) * 100 / (
                self.requests_sent as int)) as u64
            },
            rtt_min: if self.replies_received == 0 {
                None
            } else {
                Some(self.rtt_min)
            },
            rtt_max: if self.replies_received == 0 {
                None
            } else {
                Some(self.rtt_max)
            },
            rtt_avg: if self.replies_received == 0 {
                None
            } else {
                Some((self.rtt_sum as int / self.replies_received as int) as u64)
            },
        }
    }

    /// A fresh accumulator, created once at engine start.
    pub fn new() -> (s: Statistics)
        ensures
            s == Self::spec_new(),
            s.wf(),
    {
        Statistics {
            requests_sent: 0,
            replies_received: 0,
            rtt_sum: 0,
            rtt_min: 0,
            rtt_max: 0,
            rtts: Ghost(Seq::empty()),
        }
    }

    /// Fold the outcome of exactly one exchange into the accumulator. The
    /// caller guarantees exactly-once invocation per exchange; the request
    /// counter staying below `u64::MAX` is forced by the counter's width.
    pub fn record(&mut self, outcome: &EchoOutcome)
        requires
            old(self).wf(),
            old(self).requests_sent < u64::MAX,
        ensures
            *final(self) == old(self).spec_record(*outcome),
            final(self).wf(),
    {
        let prev = *self;
        match *outcome {
            EchoOutcome::Replied { round_trip_time: rtt, ttl_observed: _ } => {
                let new_min: u32 = if prev.replies_received == 0 || rtt < prev.rtt_min {
                    rtt
                } else {
                    prev.rtt_min
                };
                let new_max: u32 = if prev.replies_received == 0 || rtt > prev.rtt_max {
                    rtt
                } else {
                    prev.rtt_max
                };
                let new_sum: u64 = if prev.rtt_sum <= u64::MAX - rtt as u64 {
                    prev.rtt_sum + rtt as u64
                } else {
                    u64::MAX
                };
                *self = Statistics {
                    requests_sent: prev.requests_sent + 1,
                    replies_received: prev.replies_received + 1,
                    rtt_sum: new_sum,
                    rtt_min: new_min,
                    rtt_max: new_max,
                    rtts: Ghost(prev.rtts@.push(rtt)),
                };
            },
            _ => {
                self.requests_sent = self.requests_sent + 1;
            },
        }
        proof {
            lemma_record_preserves_wf(prev, *outcome);
        }
    }

    /// Read-only projection of the current state; never resets anything, so
    /// a display request can take it without disturbing the run.
    pub fn snapshot(&self) -> (s: Summary)
        requires
            self.wf(),
        ensures
            s == self.spec_snapshot(),
    {
        let lost: u64 = self.requests_sent - self.replies_received;
        let loss_percent: u64 = if self.requests_sent == 0 {
            0
        } else {
            proof {
                assert(0 <= (lost as int) * 100 / (self.requests_sent as int) <= 100)
                    by (nonlinear_arith)
                    requires
                        0 <= lost <= self.requests_sent,
                        self.requests_sent > 0,
                ;
            }
            ((lost as u128) * 100 / (self.requests_sent as u128)) as u64
        };
        Summary {
            sent: self.requests_sent,
            received: self.replies_received,
            lost,
            loss_percent,
            rtt_min: if self.replies_received == 0 {
                None
            } else {
                Some(self.rtt_min)
            },
            rtt_max: if self.replies_received == 0 {
                None
            } else {
                Some(self.rtt_max)
            },
            rtt_avg: if self.replies_received == 0 {
                None
            } else {
                Some(self.rtt_sum / self.replies_received)
            },
        }
    }
}

/// Recording one outcome keeps the accumulator exactly the fold of its
/// history.
pub proof fn lemma_record_preserves_wf(s: Statistics, o: EchoOutcome)
    requires
        s.wf(),
        s.requests_sent < u64::MAX,
    ensures
        s.spec_record(o).wf(),
{
    match o {
        EchoOutcome::Replied { round_trip_time: rtt, ttl_observed: _ } => {
            let t = s.rtts@;
            let p = t.push(rtt);
            assert(p.drop_last() =~= t);
            assert(p.last() == rtt);
            assert(sum_rtts(p) == sum_rtts(t) + rtt);
            if t.len() == 0 {
                assert(min_rtts(p) == rtt);
                assert(max_rtts(p) == rtt);
            }
        },
        _ => {
        },
    }
}

/// The number of replies among a sequence of outcomes.
pub open spec fn replied_count(ex: Seq<EchoOutcome>) -> nat
    decreases ex.len(),
{
    if ex.len() == 0 {
        0
    } else {
        replied_count(ex.drop_last()) + if ex.last() is Replied {
            1nat
        } else {
            0nat
        }
    }
}

/// The accumulator after recording a whole sequence of outcomes, in order.
pub open spec fn stats_after(ex: Seq<EchoOutcome>) -> Statistics
    decreases ex.len(),
{
    if ex.len() == 0 {
        Statistics::spec_new()
    } else {
        stats_after(ex.drop_last()).spec_record(ex.last())
    }
}

/// Law: after any sequence of exchanges, the requests counter equals the
/// number of exchanges performed, the replies counter equals the number of
/// replies among their outcomes, and never exceeds the requests counter.
pub proof fn lemma_requests_and_replies(ex: Seq<EchoOutcome>)
    requires
        ex.len() <= u64::MAX,
    ensures
        stats_after(ex).wf(),
        stats_after(ex).requests_sent == ex.len(),
        stats_after(ex).replies_received == replied_count(ex),
        replied_count(ex) <= ex.len(),
    decreases ex.len(),
{
    if ex.len() > 0 {
        lemma_requests_and_replies(ex.drop_last());
        lemma_record_preserves_wf(stats_after(ex.drop_last()), ex.last());
    }
}

/// Law: the reported average round-trip time equals the sum of the recorded
/// round-trip times divided by the number of replies received, and is
/// reported as undefined when no reply was received. (A history whose sum
/// exceeds `u64::MAX`, where the stored sum has saturated, is left out.)
pub proof fn lemma_average_of_recorded(s: Statistics)
    requires
        s.wf(),
        sum_rtts(s.rtts@) <= u64::MAX,
    ensures
        s.replies_received > 0 ==> s.spec_snapshot().rtt_avg == Some(
            (sum_rtts(s.rtts@) / s.replies_received as int) as u64,
        ),
        s.replies_received == 0 ==> s.spec_snapshot().rtt_avg is None,
{
}

} // verus!
