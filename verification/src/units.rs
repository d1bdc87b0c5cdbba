//! The fixed-point scale and the constants of the rules, all in steps of
//! one [`UNIT`]th.
use vstd::prelude::*;

verus! {

/// Number of steps in one whole: the window's full height or width, or one
/// full day/night cycle.
pub const UNIT: i64 = 600_000;

/// Half of one whole: the middle of the window.
pub const HALF: i64 = 300_000;

/// Simulated seconds in one full day/night cycle.
pub const CYCLE_SECONDS: i64 = 10;

/// Ticks that the phase increment assumes per simulated second.
pub const TICKS_PER_SECOND: i64 = 60;

/// What one tick adds to the phase: one whole cycle spread evenly over
/// `CYCLE_SECONDS * TICKS_PER_SECOND` ticks.
pub const PHASE_STEP: i64 = 1_000;

/// What one tick adds to the vertical velocity (downward is positive).
pub const GRAVITY: i64 = 3_000;

/// The vertical velocity that a boost sets: an upward impulse.
pub const BOOST: i64 = -24_000;

/// The largest downward velocity that gravity alone can build up.
pub const TERMINAL_VELOCITY: i64 = 24_000;

/// The horizontal velocity of a fresh world: a slow drift to the left.
pub const DRIFT: i64 = -3_000;

/// The constants are the decimal fractions they stand for, exactly:
/// one sixhundredth, five thousandths, four hundredths and one half of a whole.
pub proof fn constants_are_exact()
    ensures
        PHASE_STEP * (CYCLE_SECONDS * TICKS_PER_SECOND) == UNIT,
        GRAVITY * 1000 == 5 * UNIT,
        TERMINAL_VELOCITY * 100 == 4 * UNIT,
        BOOST * 100 == -4 * UNIT,
        DRIFT * 1000 == -5 * UNIT,
        HALF * 2 == UNIT,
{
}

} // verus!
