//! What holds of the world's rules, proved over the mathematical model.
use crate::units::{BOOST, GRAVITY, PHASE_STEP, TERMINAL_VELOCITY, UNIT};
use crate::world::{boost, hits_edge, pulled, step, tick, Message, World};
use vstd::prelude::*;

verus! {

/// The world after `n` ticks in a row, with no boost between them.
pub open spec fn after_ticks(w: World, n: nat) -> World
    decreases n,
{
    if n == 0 {
        w
    } else {
        tick(after_ticks(w, (n - 1) as nat))
    }
}

/// The world after the events of `messages`, taken in order.
pub open spec fn after(w: World, messages: Seq<Message>) -> World
    decreases messages.len(),
{
    if messages.len() == 0 {
        w
    } else {
        step(after(w, messages.drop_last()), messages.last())
    }
}

/// A tick moves a phase that lies within one cycle forward by
/// [`PHASE_STEP`], starting over at the end of the cycle, so that it lies
/// within one cycle again.
pub proof fn tick_wraps_phase(w: World)
    requires
        0 <= w.phase < UNIT,
    ensures
        tick(w).phase == (w.phase + PHASE_STEP) % (UNIT as int),
        tick(w).phase == if w.phase + PHASE_STEP < UNIT {
            w.phase + PHASE_STEP
        } else {
            w.phase + PHASE_STEP - UNIT
        },
        0 <= tick(w).phase < UNIT,
{
}

/// A tick leaves the bird inside the window, wherever it was and however
/// fast it moved; and where the window's edge stopped it, it has lost its
/// vertical velocity.
pub proof fn tick_holds_bird_in_window(w: World)
    ensures
        0 <= tick(w).bird_y <= UNIT,
        hits_edge(w.bird_y, pulled(w.bird_velocity_y)) ==> tick(w).bird_velocity_y == 0,
        !hits_edge(w.bird_y, pulled(w.bird_velocity_y)) ==> {
            &&& tick(w).bird_velocity_y == pulled(w.bird_velocity_y)
            &&& tick(w).bird_y == w.bird_y + pulled(w.bird_velocity_y)
        },
{
}

/// However many ticks pass without a boost, the bird never falls faster than
/// [`TERMINAL_VELOCITY`]: after at least one tick whatever its velocity was,
/// and from the start if it was no faster then.
pub proof fn falling_is_capped(w: World, n: nat)
    ensures
        n >= 1 ==> after_ticks(w, n).bird_velocity_y <= TERMINAL_VELOCITY,
        w.bird_velocity_y <= TERMINAL_VELOCITY ==> after_ticks(w, n).bird_velocity_y
            <= TERMINAL_VELOCITY,
    decreases n,
{
    if n > 0 {
        falling_is_capped(w, (n - 1) as nat);
    }
}

/// A boost sets the vertical velocity to exactly [`BOOST`], whatever it was,
/// and changes nothing else.
pub proof fn boost_overrides_velocity(w: World)
    ensures
        step(w, Message::Boost).bird_velocity_y == BOOST,
        step(w, Message::Boost) == (World { bird_velocity_y: BOOST as int, ..w }),
{
}

/// A tick that carries the bird past the left edge puts it at exactly the
/// right edge; any other tick moves it by its horizontal velocity, which no
/// event changes.
pub proof fn tick_respawns_at_right_edge(w: World)
    ensures
        w.bird_x + w.bird_velocity_x < 0 ==> tick(w).bird_x == UNIT,
        w.bird_x + w.bird_velocity_x >= 0 ==> tick(w).bird_x == w.bird_x + w.bird_velocity_x,
        tick(w).bird_x >= 0,
        tick(w).bird_velocity_x == w.bird_velocity_x,
        boost(w).bird_velocity_x == w.bird_velocity_x,
{
}

/// Every tick leaves a settled world, whatever came before it, and every
/// event keeps a settled world settled.
pub proof fn step_settles(w: World, message: Message)
    ensures
        tick(w).settled(),
        w.settled() ==> step(w, message).settled(),
{
}

/// No sequence of events takes a settled world out of its bounds.
pub proof fn settled_is_invariant(w: World, messages: Seq<Message>)
    requires
        w.settled(),
    ensures
        after(w, messages).settled(),
    decreases messages.len(),
{
    if messages.len() > 0 {
        settled_is_invariant(w, messages.drop_last());
        step_settles(after(w, messages.drop_last()), messages.last());
    }
}

/// From the fresh world, one tick moves the bird left by its drift, lets it
/// fall by one tick's gravity, and advances the phase by one step.
pub proof fn first_tick()
    ensures
        tick(World::initial()) == (World {
            phase: 1_000,
            bird_x: 597_000,
            bird_y: 303_000,
            bird_velocity_x: -3_000,
            bird_velocity_y: 3_000,
        }),
{
}

/// Falling from rest, the bird gains [`GRAVITY`] with every tick until it
/// reaches [`TERMINAL_VELOCITY`], as long as it stays clear of the window's
/// edges.
pub proof fn gravity_accumulates(w: World)
    requires
        !hits_edge(w.bird_y, pulled(w.bird_velocity_y)),
    ensures
        w.bird_velocity_y + GRAVITY <= TERMINAL_VELOCITY ==> tick(w).bird_velocity_y
            == w.bird_velocity_y + GRAVITY,
        w.bird_velocity_y + GRAVITY > TERMINAL_VELOCITY ==> tick(w).bird_velocity_y
            == TERMINAL_VELOCITY,
{
}

} // verus!
