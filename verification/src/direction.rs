//! The four headings of the snake.

use vstd::prelude::*;

verus! {

/// One of the four directions of travel on the grid.
///
/// `Up` is towards smaller `y`, `Left` towards smaller `x`.
#[derive(Copy, Clone, Debug, PartialEq, Eq, Hash, Structural)]
pub enum Direction {
    Up,
    Down,
    Left,
    Right,
}

impl Direction {
    /// `Up` and `Down` are the vertical directions.
    pub open spec fn spec_is_vertical(&self) -> bool {
        *self == Direction::Up || *self == Direction::Down
    }

    /// The direction that points the other way: `Up` and `Down` swap, and so
    /// do `Left` and `Right`.
    pub open spec fn spec_opposite(&self) -> Direction {
        match *self {
            Direction::Up => Direction::Down,
            Direction::Down => Direction::Up,
            Direction::Left => Direction::Right,
            Direction::Right => Direction::Left,
        }
    }

    /// Whether travel in this direction changes `y`.
    #[verifier::when_used_as_spec(spec_is_vertical)]
    pub fn is_vertical(&self) -> (vertical: bool)
        ensures
            vertical == self.spec_is_vertical(),
    {
        match self {
            Self::Up | Self::Down => true,
            _ => false,
        }
    }

    /// The reverse of this direction.
    #[verifier::when_used_as_spec(spec_opposite)]
    pub fn opposite(&self) -> (reverse: Direction)
        ensures
            reverse == self.spec_opposite(),
    {
        match self {
            Self::Up => Self::Down,
            Self::Down => Self::Up,
            Self::Left => Self::Right,
            Self::Right => Self::Left,
        }
    }
}

/// Reversing a direction twice gives the direction back.
pub proof fn lemma_opposite_involution(d: Direction)
    ensures
        d.opposite().opposite() == d,
{
}

/// A direction and its reverse lie on the same axis and are never equal.
pub proof fn lemma_opposite_same_axis(d: Direction)
    ensures
        d.opposite() != d,
        d.opposite().is_vertical() == d.is_vertical(),
{
}

} // verus!
