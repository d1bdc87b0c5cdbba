//! The world and the step that advances it.
//!
//! [`World`] is the mathematical model: five integers, each a count of
//! [`UNIT`]ths. [`tick`], [`boost`] and [`step`] say over that model what one
//! event does. [`State`] is the executable record, and [`update`] advances it
//! as [`step`] says.
use crate::units::{BOOST, DRIFT, GRAVITY, HALF, PHASE_STEP, TERMINAL_VELOCITY, UNIT};
use vstd::arithmetic::div_mod::{lemma_add_mod_noop, lemma_small_mod};
use vstd::prelude::*;

verus! {

/// What can happen to the world.
#[derive(Debug, Clone, Copy, PartialEq, Eq)]
pub enum Message {
    /// The timer fired: one simulation step passes.
    Tick,
    /// The jump key was pressed: the bird gets its upward impulse.
    Boost,
}

/// The world as mathematical integers, in steps of one [`UNIT`]th.
pub ghost struct World {
    /// Position within the day/night cycle.
    pub phase: int,
    /// Horizontal position of the bird: 0 is the left edge, `UNIT` the right.
    pub bird_x: int,
    /// Vertical position of the bird: 0 is the top, `UNIT` the bottom.
    pub bird_y: int,
    /// What one tick adds to `bird_x`.
    pub bird_velocity_x: int,
    /// What one tick adds to `bird_y`, after gravity.
    pub bird_velocity_y: int,
}

/// The executable world. Its fields are free: [`update`] works on every value
/// of them, and what it leaves behind satisfies [`World::settled`].
#[derive(Debug, Clone, Copy, PartialEq, Eq)]
pub struct State {
    /// Position within the day/night cycle, in `[0, UNIT)` once settled.
    pub phase: u64,
    /// Horizontal position of the bird: 0 is the left edge, `UNIT` the right.
    pub bird_x: i64,
    /// Vertical position of the bird: 0 is the top, `UNIT` the bottom.
    pub bird_y: i64,
    /// What one tick adds to `bird_x`.
    pub bird_velocity_x: i64,
    /// What one tick adds to `bird_y`, after gravity.
    pub bird_velocity_y: i64,
}

impl View for State {
    type V = World;

    open spec fn view(&self) -> World {
        World {
            phase: self.phase as int,
            bird_x: self.bird_x as int,
            bird_y: self.bird_y as int,
            bird_velocity_x: self.bird_velocity_x as int,
            bird_velocity_y: self.bird_velocity_y as int,
        }
    }
}

/// The phase one tick later: advanced by [`PHASE_STEP`] and wrapped into
/// `[0, UNIT)`.
pub open spec fn next_phase(phase: int) -> int {
    (phase + PHASE_STEP) % (UNIT as int)
}

/// The horizontal position one tick later: advanced by the velocity, and back
/// at the right edge once it has passed the left one.
pub open spec fn next_x(x: int, velocity: int) -> int {
    if x + velocity < 0 {
        UNIT as int
    } else {
        x + velocity
    }
}

/// The vertical velocity after gravity has acted for one tick: capped at
/// [`TERMINAL_VELOCITY`], with no floor.
pub open spec fn pulled(velocity: int) -> int {
    if velocity + GRAVITY > TERMINAL_VELOCITY {
        TERMINAL_VELOCITY as int
    } else {
        velocity + GRAVITY
    }
}

/// Whether a bird at `y`, moved by `velocity`, leaves the window through the
/// ground or the ceiling.
pub open spec fn hits_edge(y: int, velocity: int) -> bool {
    y + velocity > UNIT || y + velocity < 0
}

/// The vertical position after a move by `velocity`, held inside the window.
pub open spec fn landed_y(y: int, velocity: int) -> int {
    if y + velocity > UNIT {
        UNIT as int
    } else if y + velocity < 0 {
        0
    } else {
        y + velocity
    }
}

/// The vertical velocity after a move by `velocity` from `y`: lost on
/// contact with the ground or the ceiling, kept otherwise.
pub open spec fn landed_velocity(y: int, velocity: int) -> int {
    if hits_edge(y, velocity) {
        0
    } else {
        velocity
    }
}

/// The world one tick later.
pub open spec fn tick(w: World) -> World {
    World {
        phase: next_phase(w.phase),
        bird_x: next_x(w.bird_x, w.bird_velocity_x),
        bird_y: landed_y(w.bird_y, pulled(w.bird_velocity_y)),
        bird_velocity_x: w.bird_velocity_x,
        bird_velocity_y: landed_velocity(w.bird_y, pulled(w.bird_velocity_y)),
    }
}

/// The world after a boost: the vertical velocity is [`BOOST`], whatever it
/// was, and nothing else has changed.
pub open spec fn boost(w: World) -> World {
    World { bird_velocity_y: BOOST as int, ..w }
}

/// The world after one event.
pub open spec fn step(w: World, message: Message) -> World {
    match message {
        Message::Tick => tick(w),
        Message::Boost => boost(w),
    }
}

/// Whether the world after `message` can be held in a [`State`]: a tick must
/// not carry the bird further right than an `i64` can say. Nothing else can
/// leave the range.
pub open spec fn representable(w: World, message: Message) -> bool {
    message is Tick ==> w.bird_x + w.bird_velocity_x <= i64::MAX
}

impl World {
    /// The fresh world: dawn, the bird at the right edge and at mid-height,
    /// drifting left and not yet falling.
    pub open spec fn initial() -> World {
        World {
            phase: 0,
            bird_x: UNIT as int,
            bird_y: HALF as int,
            bird_velocity_x: DRIFT as int,
            bird_velocity_y: 0,
        }
    }

    /// What holds of the world after every tick: the phase is within one
    /// cycle, the bird is neither above the ceiling nor below the ground, and
    /// it falls no faster than [`TERMINAL_VELOCITY`].
    pub open spec fn settled(self) -> bool {
        &&& 0 <= self.phase < UNIT
        &&& 0 <= self.bird_y <= UNIT
        &&& self.bird_velocity_y <= TERMINAL_VELOCITY
    }
}

impl Default for State {
    /// The fresh world.
    fn default() -> (state: State)
        ensures
            state@ == World::initial(),
    {
        State { phase: 0, bird_x: UNIT, bird_y: HALF, bird_velocity_x: DRIFT, bird_velocity_y: 0 }
    }
}

/// Advances `state` by one event, as [`step`] says.
pub fn update(state: &mut State, message: Message)
    requires
        representable(old(state)@, message),
    ensures
        final(state)@ == step(old(state)@, message),
        message is Tick || old(state)@.settled() ==> final(state)@.settled(),
{
    match message {
        Message::Tick => {
            let whole: u64 = UNIT as u64;
            let reduced: u64 = state.phase % whole;
            proof {
                lemma_add_mod_noop(state.phase as int, PHASE_STEP as int, UNIT as int);
                lemma_small_mod(PHASE_STEP as nat, UNIT as nat);
            }
            state.phase = (reduced + PHASE_STEP as u64) % whole;

            let moved: i128 = state.bird_x as i128 + state.bird_velocity_x as i128;
            state.bird_x = if moved < 0 {
                UNIT
            } else {
                moved as i64
            };

            let velocity: i64 = if state.bird_velocity_y > TERMINAL_VELOCITY - GRAVITY {
                TERMINAL_VELOCITY
            } else {
                state.bird_velocity_y + GRAVITY
            };
            let fallen: i128 = state.bird_y as i128 + velocity as i128;
            if fallen > UNIT as i128 {
                state.bird_y = UNIT;
                state.bird_velocity_y = 0;
            } else if fallen < 0 {
                state.bird_y = 0;
                state.bird_velocity_y = 0;
            } else {
                state.bird_y = fallen as i64;
                state.bird_velocity_y = velocity;
            }
        },
        Message::Boost => {
            state.bird_velocity_y = BOOST;
        },
    }
}

/// Advances `state` by one event where the result can be held in a [`State`],
/// and leaves it untouched where it cannot. Says which of the two happened.
pub fn try_update(state: &mut State, message: Message) -> (advanced: bool)
    ensures
        advanced == representable(old(state)@, message),
        advanced ==> final(state)@ == step(old(state)@, message),
        !advanced ==> *final(state) == *old(state),
{
    let fits: bool = match message {
        Message::Tick => state.bird_velocity_x <= 0 || state.bird_x <= i64::MAX
            - state.bird_velocity_x,
        Message::Boost => true,
    };
    if fits {
        update(state, message);
    }
    fits
}

} // verus!
