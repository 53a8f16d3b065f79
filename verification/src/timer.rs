//! A repeating interval timer, advanced once per frame.
//!
//! Time is counted in millisecond ticks. The timer fires whenever the
//! accumulated elapsed time reaches its period; on firing it keeps the
//! overshoot, so a long frame never loses time.

use vstd::prelude::*;
use vstd::arithmetic::div_mod::lemma_mod_division_less_than_divisor;

verus! {

/// A repeating timer: fires every `period` ticks.
pub struct RepeatTimer {
    /// Length of the interval, in ticks. Always positive.
    pub period: u64,
    /// Ticks accumulated since the timer last fired. Always below `period`.
    pub elapsed: u64,
}

impl RepeatTimer {
    /// The timer's internal invariant.
    pub open spec fn wf(self) -> bool {
        self.period > 0 && self.elapsed < self.period
    }

    /// A fresh timer that fires every `period` ticks.
    pub fn new(period: u64) -> (t: RepeatTimer)
        requires
            period > 0,
        ensures
            t.wf(),
            t.period == period,
            t.elapsed == 0,
    {
        RepeatTimer { period, elapsed: 0 }
    }

    /// Advances the timer by `dt` ticks. Returns whether the interval
    /// elapsed during this advance; the overshoot is carried over.
    pub fn tick(&mut self, dt: u64) -> (fired: bool)
        requires
            old(self).wf(),
        ensures
            final(self).wf(),
            final(self).period == old(self).period,
            final(self).elapsed as int == (old(self).elapsed + dt) % (old(self).period as int),
            fired == (old(self).elapsed + dt >= old(self).period),
    {
        let total: u128 = self.elapsed as u128 + dt as u128;
        let fired = total >= self.period as u128;
        proof {
            lemma_mod_division_less_than_divisor(
                (old(self).elapsed + dt) as int,
                old(self).period as int,
            );
        }
        self.elapsed = (total % (self.period as u128)) as u64;
        fired
    }
}

} // verus!
