//! Keys of the keyboard, as far as the game tells them apart.

use vstd::prelude::*;
use crate::direction::Direction;

verus! {

/// A key press.
#[derive(Copy, Clone, Debug, PartialEq, Eq, Hash, Structural)]
pub enum Key {
    /// The arrow keys.
    Up,
    Down,
    Left,
    Right,
    /// The escape key.
    Esc,
    /// A key that types a character.
    Char(char),
    /// Any other key.
    Other,
}

impl Key {
    /// The heading that an arrow key asks for; `None` for every other key.
    pub open spec fn spec_direction(&self) -> Option<Direction> {
        match *self {
            Key::Up => Some(Direction::Up),
            Key::Down => Some(Direction::Down),
            Key::Left => Some(Direction::Left),
            Key::Right => Some(Direction::Right),
            _ => None,
        }
    }

    /// Escape and `q` ask to leave the game.
    pub open spec fn spec_is_quit(&self) -> bool {
        *self == Key::Esc || *self == Key::Char('q')
    }

    /// The space bar pauses the game and resumes it.
    pub open spec fn spec_is_pause(&self) -> bool {
        *self == Key::Char(' ')
    }

    /// The heading that this key asks for, if it is an arrow key.
    #[verifier::when_used_as_spec(spec_direction)]
    pub fn direction(&self) -> (heading: Option<Direction>)
        ensures
            heading == self.spec_direction(),
    {
        match self {
            Key::Up => Some(Direction::Up),
            Key::Down => Some(Direction::Down),
            Key::Left => Some(Direction::Left),
            Key::Right => Some(Direction::Right),
            _ => None,
        }
    }

    /// Whether this key asks to leave the game.
    #[verifier::when_used_as_spec(spec_is_quit)]
    pub fn is_quit(&self) -> (quit: bool)
        ensures
            quit == self.spec_is_quit(),
    {
        match self {
            Key::Esc => true,
            Key::Char(c) => *c == 'q',
            _ => false,
        }
    }

    /// Whether this key toggles the pause.
    #[verifier::when_used_as_spec(spec_is_pause)]
    pub fn is_pause(&self) -> (pause: bool)
        ensures
            pause == self.spec_is_pause(),
    {
        match self {
            Key::Char(c) => *c == ' ',
            _ => false,
        }
    }
}

} // verus!
