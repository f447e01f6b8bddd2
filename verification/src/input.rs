//! What the player can tell the game, and the pace at which the game listens.

use crate::geometry::SnakeDirection;
use vstd::prelude::*;

verus! {

/// Length of one tick, in milliseconds.
pub const READ_TIME: u64 = 100;

/// A key as the game tells keys apart.
#[derive(Clone, Copy, Debug, PartialEq, Eq, Structural)]
pub enum Key {
    Up,
    Down,
    Left,
    Right,
    Char(char),
    Esc,
    /// Any key the game has no use for.
    Other,
}

/// The direction that a letter asks for: `w`, `a`, `s` and `d` steer.
pub open spec fn char_direction(c: char) -> Option<SnakeDirection> {
    if c == 'w' {
        Some(SnakeDirection::Up)
    } else if c == 's' {
        Some(SnakeDirection::Down)
    } else if c == 'd' {
        Some(SnakeDirection::Right)
    } else if c == 'a' {
        Some(SnakeDirection::Left)
    } else {
        None
    }
}

/// The direction that a key asks for: the arrows steer, and so do the letters
/// of `char_direction`.
pub open spec fn key_direction(key: Key) -> Option<SnakeDirection> {
    match key {
        Key::Up => Some(SnakeDirection::Up),
        Key::Down => Some(SnakeDirection::Down),
        Key::Right => Some(SnakeDirection::Right),
        Key::Left => Some(SnakeDirection::Left),
        Key::Char(c) => char_direction(c),
        Key::Esc => None,
        Key::Other => None,
    }
}

/// What the terminal reported during one tick.
#[derive(Clone, Copy, Debug, PartialEq, Eq, Structural)]
pub enum InputEvent {
    Key(Key),
    /// The terminal changed its size.
    Resize,
    /// The mouse, or whatever else is neither a key nor a change of size.
    Other,
}

/// The key that stands for what happened during a tick. A resized terminal
/// counts as the quit key, since the board no longer fits it; any other event
/// that is no key, and a tick without an event, count as no key.
pub open spec fn command_of_event(event: Option<InputEvent>) -> Option<Key> {
    match event {
        Some(InputEvent::Key(key)) => Some(key),
        Some(InputEvent::Resize) => Some(Key::Esc),
        Some(InputEvent::Other) => None,
        None => None,
    }
}

/// Turns what the terminal reported during a tick into the key to act on.
pub fn command_of(event: Option<InputEvent>) -> (command: Option<Key>)
    ensures
        command == command_of_event(event),
{
    match event {
        Some(InputEvent::Key(key)) => Some(key),
        Some(InputEvent::Resize) => Some(Key::Esc),
        Some(InputEvent::Other) => None,
        None => None,
    }
}

/// How long is still to be waited once `elapsed` of a tick of length `tick`
/// has passed, in the unit of the arguments. Waiting that long makes every
/// tick last at least `tick`, however early the player's key came.
pub fn remaining_wait(tick: u64, elapsed: u64) -> (rest: u64)
    ensures
        rest == if elapsed < tick { tick - elapsed } else { 0 },
        elapsed + rest >= tick,
        rest <= tick,
{
    if elapsed < tick {
        tick - elapsed
    } else {
        0
    }
}

} // verus!
