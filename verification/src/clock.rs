//! The animation clock: a per-frame time scalar that wraps at a fixed
//! period, incrementing a cycle counter, so that numeric magnitudes stay
//! bounded over an arbitrarily long run.
//!
//! Time is held in tenths of a millisecond, so the per-frame increment of
//! 0.0075 s is exactly `75` units and the 20 s reset period is exactly
//! `200_000` units.

use vstd::prelude::*;

verus! {

/// Per-frame time increment: 0.0075 s in tenths of a millisecond.
pub const TIME_STEP_UNITS: u32 = 75;

/// Reset period: 20 s in tenths of a millisecond.
pub const RESET_PERIOD_UNITS: u32 = 200_000;

/// Mathematical model of the clock, over unbounded integers.
pub ghost struct ClockModel {
    pub time: int,
    pub cycle: int,
}

/// The animation clock carried across frames: monotonic time within a
/// cycle, and the number of completed cycles.
pub struct AnimationClock {
    pub time_units: u32,
    pub cycle: i32,
}

impl View for AnimationClock {
    type V = ClockModel;

    open spec fn view(&self) -> ClockModel {
        ClockModel { time: self.time_units as int, cycle: self.cycle as int }
    }
}

/// The clock invariant: time stays within one reset period.
pub open spec fn model_wf(m: ClockModel) -> bool {
    0 <= m.time <= RESET_PERIOD_UNITS
}

/// One frame step on the model: add the increment; past the period, wrap
/// to zero and count one more completed cycle.
pub open spec fn advance_model(m: ClockModel) -> ClockModel {
    if m.time + TIME_STEP_UNITS > RESET_PERIOD_UNITS {
        ClockModel { time: 0, cycle: m.cycle + 1 }
    } else {
        ClockModel { time: m.time + TIME_STEP_UNITS, cycle: m.cycle }
    }
}

/// The model after `n` frame steps.
pub open spec fn iter_advance(m: ClockModel, n: nat) -> ClockModel
    decreases n,
{
    if n == 0 {
        m
    } else {
        advance_model(iter_advance(m, (n - 1) as nat))
    }
}

/// How many of the first `n` frame steps wrapped past the period.
pub open spec fn wrap_count(m: ClockModel, n: nat) -> nat
    decreases n,
{
    if n == 0 {
        0
    } else if iter_advance(m, (n - 1) as nat).time + TIME_STEP_UNITS > RESET_PERIOD_UNITS {
        wrap_count(m, (n - 1) as nat) + 1
    } else {
        wrap_count(m, (n - 1) as nat)
    }
}

impl AnimationClock {
    pub open spec fn wf(self) -> bool {
        model_wf(self@)
    }

    /// The clock at process start: time zero, no completed cycles.
    pub fn new() -> (c: AnimationClock)
        ensures
            c.wf(),
            c@.time == 0,
            c@.cycle == 0,
    {
        AnimationClock { time_units: 0, cycle: 0 }
    }

    /// Advance the clock by one frame. When the incremented time passes the
    /// reset period it wraps to exactly zero and the cycle counter grows by
    /// exactly one; otherwise only the time grows.
    pub fn advance(&self) -> (c: AnimationClock)
        requires
            self.wf(),
            self.cycle < i32::MAX,
        ensures
            c.wf(),
            c@ == advance_model(self@),
    {
        if self.time_units + TIME_STEP_UNITS > RESET_PERIOD_UNITS {
            AnimationClock { time_units: 0, cycle: self.cycle + 1 }
        } else {
            AnimationClock { time_units: self.time_units + TIME_STEP_UNITS, cycle: self.cycle }
        }
    }
}

/// Clock wraparound law: from any well-formed clock, any number of frame
/// steps keeps the time within `[0, RESET_PERIOD_UNITS]`, every step that
/// wraps leaves the time at exactly zero (in particular below one
/// increment), and the cycle counter grows by exactly one per wraparound:
/// after `n` steps it has grown by exactly the number of steps that wrapped.
pub proof fn lemma_clock_iterate(m: ClockModel, n: nat)
    requires
        model_wf(m),
    ensures
        model_wf(iter_advance(m, n)),
        iter_advance(m, n).cycle == m.cycle + wrap_count(m, n),
        wrap_count(m, n) <= n,
        n > 0 && iter_advance(m, (n - 1) as nat).time + TIME_STEP_UNITS > RESET_PERIOD_UNITS
            ==> iter_advance(m, n).time == 0,
    decreases n,
{
    if n > 0 {
        lemma_clock_iterate(m, (n - 1) as nat);
    }
}

} // verus!
