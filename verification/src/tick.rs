//! The tick scheduler: a fixed-interval accumulator that gates how
//! often the simulation advances, independent of the frame rate.

use vstd::prelude::*;

verus! {

/// Milliseconds between two simulation ticks: twenty advances a second.
pub const TICK_INTERVAL_MS: u64 = 50;

/// A repeating fixed-interval timer. Elapsed time is accumulated across
/// polls, so intervals straddling a frame boundary are not lost, yet a
/// single poll fires at most once: surplus time stays in the
/// accumulator for later polls rather than being caught up at once.
pub struct TickTimer {
    pub interval_ms: u64,
    pub acc_ms: u64,
}

impl TickTimer {
    /// The interval is never zero.
    pub open spec fn wf(self) -> bool {
        self.interval_ms > 0
    }

    /// A timer that fires every `interval_ms` milliseconds, starting
    /// with an empty accumulator.
    pub fn new(interval_ms: u64) -> (t: TickTimer)
        requires
            interval_ms > 0,
        ensures
            t.wf(),
            t.interval_ms == interval_ms,
            t.acc_ms == 0,
    {
        TickTimer { interval_ms, acc_ms: 0 }
    }

    /// Add the elapsed time of one poll; report whether a full interval
    /// has elapsed. On a fire exactly one interval is consumed from the
    /// accumulator; otherwise the time is only accumulated.
    pub fn tick(&mut self, delta_ms: u64) -> (fired: bool)
        requires
            old(self).wf(),
            old(self).acc_ms + delta_ms <= u64::MAX,
        ensures
            final(self).wf(),
            final(self).interval_ms == old(self).interval_ms,
            fired == (old(self).acc_ms + delta_ms >= old(self).interval_ms),
            fired ==> final(self).acc_ms == old(self).acc_ms + delta_ms - old(self).interval_ms,
            !fired ==> final(self).acc_ms == old(self).acc_ms + delta_ms,
    {
        let sum = self.acc_ms + delta_ms;
        if sum >= self.interval_ms {
            self.acc_ms = sum - self.interval_ms;
            true
        } else {
            self.acc_ms = sum;
            false
        }
    }
}

} // verus!
