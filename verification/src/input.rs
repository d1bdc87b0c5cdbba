//! From what the host delivers to the events of the world.
use crate::world::Message;
use vstd::prelude::*;

verus! {

/// Milliseconds between two ticks of the timer.
pub const TICK_MILLIS: u64 = 16;

/// A key, as far as the game tells keys apart.
#[derive(Debug, Clone, Copy, PartialEq, Eq)]
pub enum Key {
    /// The space bar: the jump key.
    Space,
    /// Any other key.
    Other,
}

/// The event that a key press stands for: a boost for the jump key, nothing
/// for any other.
pub fn on_key_press(key: Key) -> (message: Option<Message>)
    ensures
        message == (match key {
            Key::Space => Some(Message::Boost),
            Key::Other => None::<Message>,
        }),
{
    match key {
        Key::Space => Some(Message::Boost),
        Key::Other => None,
    }
}

} // verus!
