//! Compass directions and the logical input events that drive a match.

use vstd::prelude::*;

verus! {

/// One of the four compass directions on the board. Rows grow downwards, so
/// `Up` decreases `y` and `Down` increases it.
#[derive(Clone, Copy, PartialEq, Eq, Debug, Structural)]
pub enum Direction {
    Up,
    Down,
    Left,
    Right,
}

/// One logical input event, as delivered by whatever captures the keyboard.
#[derive(Clone, Copy, PartialEq, Eq, Debug, Structural)]
pub enum Input {
    Up,
    Down,
    Left,
    Right,
    /// Ends the current phase.
    Confirm,
    /// Any key the match has no use for.
    Unrecognized,
}

impl Input {
    /// The direction an input asks for, if it is directional.
    pub open spec fn direction(self) -> Option<Direction> {
        match self {
            Input::Up => Some(Direction::Up),
            Input::Down => Some(Direction::Down),
            Input::Left => Some(Direction::Left),
            Input::Right => Some(Direction::Right),
            Input::Confirm => None,
            Input::Unrecognized => None,
        }
    }
}

impl Direction {
    /// Change of the column when stepping once in this direction.
    pub open spec fn dx(self) -> int {
        match self {
            Direction::Left => -1,
            Direction::Right => 1,
            Direction::Up => 0,
            Direction::Down => 0,
        }
    }

    /// Change of the row when stepping once in this direction.
    pub open spec fn dy(self) -> int {
        match self {
            Direction::Up => -1,
            Direction::Down => 1,
            Direction::Left => 0,
            Direction::Right => 0,
        }
    }

    /// Reads off an input event the direction it asks for; `None` for
    /// `Confirm` and for unrecognized keys.
    pub fn from_keycode(key: Input) -> (dir: Option<Direction>)
        ensures
            dir == key.direction(),
    {
        match key {
            Input::Up => Some(Direction::Up),
            Input::Down => Some(Direction::Down),
            Input::Left => Some(Direction::Left),
            Input::Right => Some(Direction::Right),
            _ => None,
        }
    }
}

/// Every direction moves exactly one cell along exactly one axis.
pub proof fn lemma_unit_step(dir: Direction)
    ensures
        (dir.dx() == 0 && (dir.dy() == 1 || dir.dy() == -1)) || (dir.dy() == 0 && (dir.dx() == 1
            || dir.dx() == -1)),
{
}

} // verus!
