//! A repeating timer kept as an explicit accumulator.

use vstd::prelude::*;

verus! {

/// Counts ticks towards a fixed period. When the count reaches the period
/// the timer completes once and the period is taken out of the count, so
/// that what ran over is carried into the next round.
#[derive(Clone, Copy, Debug, PartialEq, Eq, Structural)]
pub struct GaitTimer {
    /// Ticks from one completion to the next.
    pub period: u64,
    /// Ticks counted and not yet taken out by a completion.
    pub elapsed: u64,
}

impl GaitTimer {
    /// Whether counting `delta` more ticks reaches the period.
    pub open spec fn completes(self, delta: u64) -> bool {
        self.elapsed + delta >= self.period
    }

    /// The count after `delta` more ticks: the sum, less one period if that
    /// sum reaches it.
    pub open spec fn carried(self, delta: u64) -> int {
        if self.completes(delta) {
            self.elapsed + delta - self.period
        } else {
            self.elapsed + delta
        }
    }

    /// A timer of the given period that has counted nothing yet.
    pub fn new(period: u64) -> (timer: GaitTimer)
        ensures
            timer.period == period,
            timer.elapsed == 0,
    {
        GaitTimer { period, elapsed: 0 }
    }

    /// Counts `delta` ticks and says whether that completed a period. No
    /// tick is lost: the new count, plus one period on completion, is the
    /// old count plus `delta`.
    pub fn tick(&mut self, delta: u64) -> (completed: bool)
        requires
            old(self).elapsed + delta <= u64::MAX,
        ensures
            completed == old(self).completes(delta),
            final(self).period == old(self).period,
            final(self).elapsed == old(self).carried(delta),
    {
        let total: u64 = self.elapsed + delta;
        if total >= self.period {
            self.elapsed = total - self.period;
            true
        } else {
            self.elapsed = total;
            false
        }
    }
}

} // verus!
