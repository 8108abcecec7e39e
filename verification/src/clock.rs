//! The simulation clock: simulated time as whole milliseconds from the
//! epoch of the elements, advanced by a fixed step each tick.

use vstd::prelude::*;

verus! {

/// Simulated time. It never runs backwards: each tick adds the step, and at
/// the end of the range of `i64` the clock stays where it is.
#[derive(Clone, Copy, Debug, PartialEq, Eq)]
pub struct SimulationClock {
    elapsed_ms: i64,
    step_ms: u32,
}

/// The time that a clock shows after one tick.
pub open spec fn advanced(elapsed_ms: int, step_ms: int) -> int {
    if elapsed_ms + step_ms <= i64::MAX {
        elapsed_ms + step_ms
    } else {
        i64::MAX as int
    }
}

impl SimulationClock {
    /// The simulated time, in milliseconds from the epoch; negative before it.
    pub closed spec fn spec_elapsed_ms(&self) -> i64 {
        self.elapsed_ms
    }

    /// The simulated time that one tick adds, in milliseconds.
    pub closed spec fn spec_step_ms(&self) -> u32 {
        self.step_ms
    }

    /// A clock that starts at the given offset from the epoch and steps by
    /// the given number of milliseconds per tick.
    pub fn new(start_ms: i64, step_ms: u32) -> (clock: SimulationClock)
        ensures
            clock.spec_elapsed_ms() == start_ms,
            clock.spec_step_ms() == step_ms,
    {
        SimulationClock { elapsed_ms: start_ms, step_ms }
    }

    /// A clock that starts at the epoch and steps by a tenth of a minute per tick.
    pub fn standard() -> (clock: SimulationClock)
        ensures
            clock.spec_elapsed_ms() == 0,
            clock.spec_step_ms() == 6000,
    {
        SimulationClock { elapsed_ms: 0, step_ms: 6000 }
    }

    /// The simulated time, in milliseconds from the epoch.
    pub fn elapsed_ms(&self) -> (ms: i64)
        ensures
            ms == self.spec_elapsed_ms(),
    {
        self.elapsed_ms
    }

    /// The simulated time that one tick adds, in milliseconds.
    pub fn step_ms(&self) -> (ms: u32)
        ensures
            ms == self.spec_step_ms(),
    {
        self.step_ms
    }

    /// Advances the clock by one tick.
    pub fn advance(&mut self)
        ensures
            final(self).spec_step_ms() == old(self).spec_step_ms(),
            final(self).spec_elapsed_ms() == advanced(
                old(self).spec_elapsed_ms() as int,
                old(self).spec_step_ms() as int,
            ),
            final(self).spec_elapsed_ms() >= old(self).spec_elapsed_ms(),
    {
        let step: i64 = self.step_ms as i64;
        if self.elapsed_ms <= i64::MAX - step {
            self.elapsed_ms = self.elapsed_ms + step;
        } else {
            self.elapsed_ms = i64::MAX;
        }
    }
}

/// The time after any number of ticks.
pub open spec fn advanced_by(elapsed_ms: int, step_ms: int, ticks: nat) -> int
    decreases ticks,
{
    if ticks == 0 {
        elapsed_ms
    } else {
        advanced(advanced_by(elapsed_ms, step_ms, (ticks - 1) as nat), step_ms)
    }
}

/// Simulated time never runs backwards, over any number of ticks, and while
/// it stays in range it is the start plus the step for each tick.
pub proof fn law_clock_monotonic(elapsed_ms: int, step_ms: int, ticks: nat)
    requires
        i64::MIN <= elapsed_ms <= i64::MAX,
        0 <= step_ms <= u32::MAX,
    ensures
        elapsed_ms <= advanced_by(elapsed_ms, step_ms, ticks) <= i64::MAX,
        elapsed_ms + ticks * step_ms <= i64::MAX ==> advanced_by(elapsed_ms, step_ms, ticks)
            == elapsed_ms + ticks * step_ms,
    decreases ticks,
{
    if ticks > 0 {
        let before = (ticks - 1) as nat;
        law_clock_monotonic(elapsed_ms, step_ms, before);
        assert(ticks * step_ms == before * step_ms + step_ms) by (nonlinear_arith)
            requires
                ticks == before + 1,
        ;
        assert(before * step_ms >= 0) by (nonlinear_arith)
            requires
                before >= 0,
                step_ms >= 0,
        ;
    } else {
        assert(ticks * step_ms == 0) by (nonlinear_arith)
            requires
                ticks == 0,
        ;
    }
}

} // verus!
