//! Simulation core of a small side-scroller: a bird falls under gravity, drifts
//! to the left and can be boosted upward, while the sky cycles between day and
//! night.
//!
//! Every quantity is a fixed-point number: an integer count of [`UNIT`]ths.
//! One whole (the full height or width of the window, one full day/night
//! cycle, a colour channel at full strength) is exactly `UNIT`, and every
//! constant of the rules is a whole number of such steps, so the rules are
//! stated and proved over mathematical integers, with rounding only where a
//! colour is blended or a position is turned into layout portions.
//!
//! - [`world`] holds the state and the step that advances it by one event.
//! - [`dynamics`] proves what holds of the step: the bounds it keeps.
//! - [`sky`] blends the sky's colour between day and night.
//! - [`layout`] turns the bird's position into the space drawn around it.
//! - [`input`] maps key presses to events.
pub mod dynamics;
pub mod input;
pub mod layout;
pub mod sky;
pub mod units;
pub mod world;

pub use input::{on_key_press, Key, TICK_MILLIS};
pub use layout::{portions, Portions, SCALE};
pub use sky::{ease, mix, sky_color, Color};
pub use units::{
    BOOST, CYCLE_SECONDS, DRIFT, GRAVITY, HALF, PHASE_STEP, TERMINAL_VELOCITY, TICKS_PER_SECOND,
    UNIT,
};
pub use world::{try_update, update, Message, State, World};
