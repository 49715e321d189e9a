//! Keys as the game reads them, and which of them steer the snake.

use vstd::prelude::*;

use crate::geometry::Direction;

verus! {

/// A key press reported by the terminal.
#[derive(Clone, Copy, Debug, PartialEq, Eq, Structural)]
pub enum Key {
    Backspace,
    Left,
    Right,
    Up,
    Down,
    Home,
    End,
    PageUp,
    PageDown,
    BackTab,
    Delete,
    Insert,
    /// A function key, by number.
    F(u8),
    /// A plain character.
    Char(char),
    /// A character typed with Alt held.
    Alt(char),
    /// A character typed with Ctrl held.
    Ctrl(char),
    Null,
    Esc,
}

/// The direction an arrow key asks for; no other key, nor the lack of one,
/// asks for any.
pub open spec fn key_direction_spec(key: Option<Key>) -> Option<Direction> {
    match key {
        Some(Key::Up) => Some(Direction::Up),
        Some(Key::Down) => Some(Direction::Down),
        Some(Key::Left) => Some(Direction::Left),
        Some(Key::Right) => Some(Direction::Right),
        _ => None,
    }
}

/// The direction an arrow key asks for; `None` for any other key, or none.
pub fn key_to_direction(key: Option<Key>) -> (r: Option<Direction>)
    ensures
        r == key_direction_spec(key),
{
    match key {
        Some(Key::Up) => Some(Direction::Up),
        Some(Key::Down) => Some(Direction::Down),
        Some(Key::Left) => Some(Direction::Left),
        Some(Key::Right) => Some(Direction::Right),
        _ => None,
    }
}

} // verus!
