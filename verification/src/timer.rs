//! Repeating tick timers, counted in whole microseconds of elapsed time.
//!
//! Each timer accumulates the wall-clock delta the caller hands it every
//! tick and reports when a period has elapsed, keeping the remainder so
//! that repeats stay on cadence.

use vstd::prelude::*;

verus! {

/// Addition of two values capped at the largest 64-bit value.
pub open spec fn sat_add_u64(a: int, b: int) -> int {
    if a + b > u64::MAX { u64::MAX as int } else { a + b }
}

/// Whether a timer with the given elapsed time and period fires when the
/// given delta is added. A zero period fires on every tick.
pub open spec fn timer_fires(elapsed: int, duration: int, delta: int) -> bool {
    duration == 0 || elapsed + delta >= duration
}

/// The elapsed time a timer holds after a tick: the remainder past the
/// period when it fired, the accumulated total otherwise.
pub open spec fn timer_next_elapsed(elapsed: int, duration: int, delta: int) -> int {
    if duration == 0 {
        0
    } else if elapsed + delta >= duration {
        sat_add_u64(elapsed, delta) % duration
    } else {
        elapsed + delta
    }
}

/// A repeating timer: elapsed time within the current period, and the
/// period itself.
pub struct TickTimer {
    elapsed_us: u64,
    duration_us: u64,
}

impl TickTimer {
    /// The accumulated time within the current period, for contracts.
    pub closed spec fn spec_elapsed(&self) -> int {
        self.elapsed_us as int
    }

    /// The period, for contracts.
    pub closed spec fn spec_duration(&self) -> int {
        self.duration_us as int
    }

    /// A fresh timer with the given period and no accumulated time.
    pub fn new(duration_us: u64) -> (t: TickTimer)
        ensures
            t.spec_duration() == duration_us,
            t.spec_elapsed() == 0,
    {
        TickTimer { elapsed_us: 0, duration_us }
    }

    /// Accumulates a tick's elapsed time and reports whether the period
    /// elapsed during this tick.
    pub fn tick(&mut self, delta_us: u64) -> (fired: bool)
        ensures
            final(self).spec_duration() == old(self).spec_duration(),
            fired == timer_fires(old(self).spec_elapsed(), old(self).spec_duration(),
                delta_us as int),
            final(self).spec_elapsed() == timer_next_elapsed(
                old(self).spec_elapsed(),
                old(self).spec_duration(),
                delta_us as int,
            ),
    {
        let sum: u64 = if delta_us > u64::MAX - self.elapsed_us {
            u64::MAX
        } else {
            self.elapsed_us + delta_us
        };
        if self.duration_us == 0 {
            self.elapsed_us = 0;
            true
        } else if sum >= self.duration_us {
            self.elapsed_us = sum % self.duration_us;
            true
        } else {
            self.elapsed_us = sum;
            false
        }
    }

    /// Discards the accumulated time, keeping the period.
    pub fn reset(&mut self)
        ensures
            final(self).spec_duration() == old(self).spec_duration(),
            final(self).spec_elapsed() == 0,
    {
        self.elapsed_us = 0;
    }

    /// The period in microseconds.
    pub fn duration_us(&self) -> (d: u64)
        ensures
            d == self.spec_duration(),
    {
        self.duration_us
    }

    /// Replaces the period, keeping the accumulated time.
    pub fn set_duration(&mut self, duration_us: u64)
        ensures
            final(self).spec_duration() == duration_us,
            final(self).spec_elapsed() == old(self).spec_elapsed(),
    {
        self.duration_us = duration_us;
    }
}

/// The gravity timer: a piece falls one row each time it fires.
pub struct FallTimer(pub TickTimer);

/// The horizontal input repeat timer.
pub struct InputTimer(pub TickTimer);

/// The soft-drop input repeat timer.
pub struct DropInputTimer(pub TickTimer);

} // verus!
