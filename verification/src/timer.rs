//! Timers driven by the externally supplied per-tick delta: one-shot delays,
//! repeating intervals, and the capped field-occupation clocks that feed the
//! world-extent controller.

use vstd::prelude::*;

verus! {

/// A one-shot delay. It fires on the tick in which its remaining time is
/// exhausted, and never again.
#[derive(Clone, Copy, PartialEq, Eq, Structural, Debug)]
pub struct OneShot {
    pub remaining: i64,
}

impl OneShot {
    pub open spec fn wf(self) -> bool {
        self.remaining >= 0
    }

    /// A one-shot fires exactly when it still has time left and the delta
    /// exhausts it.
    pub open spec fn spec_fires(self, delta: int) -> bool {
        0 < self.remaining <= delta
    }

    /// The timer after one tick: remaining time reduced by the delta, floored
    /// at zero.
    pub open spec fn spec_advanced(self, delta: int) -> OneShot {
        OneShot {
            remaining: if self.remaining <= delta {
                0i64
            } else {
                (self.remaining - delta) as i64
            },
        }
    }

    pub fn new(duration: i64) -> (t: OneShot)
        requires
            duration >= 0,
        ensures
            t.remaining == duration,
            t.wf(),
    {
        OneShot { remaining: duration }
    }

    /// Advance the timer by one tick's delta; report whether it fired.
    pub fn tick(&mut self, delta: i64) -> (fired: bool)
        requires
            old(self).wf(),
            delta >= 0,
        ensures
            final(self).wf(),
            *final(self) == old(self).spec_advanced(delta as int),
            fired == old(self).spec_fires(delta as int),
    {
        let fired = 0 < self.remaining && self.remaining <= delta;
        if self.remaining <= delta {
            self.remaining = 0;
        } else {
            self.remaining = self.remaining - delta;
        }
        fired
    }
}

/// A repeating interval timer. It fires on every tick in which the delta
/// exhausts the remaining time, then starts over at the point in its period
/// that the leftover delta reaches.
#[derive(Clone, Copy, PartialEq, Eq, Structural, Debug)]
pub struct Repeat {
    pub period: i64,
    pub remaining: i64,
}

impl Repeat {
    pub open spec fn wf(self) -> bool {
        0 < self.remaining <= self.period
    }

    pub open spec fn spec_fires(self, delta: int) -> bool {
        self.remaining <= delta
    }

    pub open spec fn spec_advanced(self, delta: int) -> Repeat {
        Repeat {
            period: self.period,
            remaining: if delta < self.remaining {
                (self.remaining - delta) as i64
            } else {
                (self.period - ((delta - self.remaining) % (self.period as int))) as i64
            },
        }
    }

    pub fn new(period: i64) -> (t: Repeat)
        requires
            period > 0,
        ensures
            t.period == period,
            t.remaining == period,
            t.wf(),
    {
        Repeat { period, remaining: period }
    }

    /// Advance the timer by one tick's delta; report whether it fired.
    pub fn tick(&mut self, delta: i64) -> (fired: bool)
        requires
            old(self).wf(),
            delta >= 0,
        ensures
            final(self).wf(),
            *final(self) == old(self).spec_advanced(delta as int),
            fired == old(self).spec_fires(delta as int),
    {
        if delta < self.remaining {
            self.remaining = self.remaining - delta;
            false
        } else {
            let over = delta - self.remaining;
            let m = over.checked_rem_euclid(self.period).unwrap();
            proof {
                vstd::arithmetic::div_mod::lemma_mod_bound(over as int, self.period as int);
            }
            self.remaining = self.period - m;
            true
        }
    }
}

/// Elapsed occupation time stops accumulating at this cap.
pub const FIELD_TIMER_CAP: i64 = 500;

/// A hostile's field-occupation clock: how long it has occupied the world,
/// capped. The sum of these clocks drives the extent shrink, and a destroyed
/// owner's elapsed time is paid back to the extent as a kill bonus.
#[derive(Clone, Copy, PartialEq, Eq, Structural, Debug)]
pub struct TowerField {
    pub elapsed: i64,
}

impl TowerField {
    pub open spec fn wf(self) -> bool {
        0 <= self.elapsed <= FIELD_TIMER_CAP
    }

    pub open spec fn spec_advanced(self, delta: int) -> TowerField {
        TowerField {
            elapsed: if self.elapsed + delta >= FIELD_TIMER_CAP {
                FIELD_TIMER_CAP
            } else {
                (self.elapsed + delta) as i64
            },
        }
    }

    pub fn new() -> (t: TowerField)
        ensures
            t.elapsed == 0,
            t.wf(),
    {
        TowerField { elapsed: 0 }
    }

    /// Accumulate one tick's delta, stopping at the cap.
    pub fn tick(&mut self, delta: i64)
        requires
            old(self).wf(),
            delta >= 0,
        ensures
            final(self).wf(),
            *final(self) == old(self).spec_advanced(delta as int),
    {
        if delta >= FIELD_TIMER_CAP - self.elapsed {
            self.elapsed = FIELD_TIMER_CAP;
        } else {
            self.elapsed = self.elapsed + delta;
        }
    }
}

} // verus!
