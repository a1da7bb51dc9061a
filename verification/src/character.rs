//! Characters: one per player, with position, facing and movement budget.

use vstd::prelude::*;
use crate::direction::Direction;
use crate::grid::{GridPosition, Selector};

verus! {

/// Whether a character still takes part in the match.
#[derive(Clone, Copy, PartialEq, Eq, Debug, Structural)]
pub enum Status {
    Alive,
    Dead,
}

/// The state of one player's character.
#[derive(Clone, Copy, PartialEq, Eq, Debug, Structural)]
pub struct Character {
    /// Index of the character in the roster; also its mark on the board.
    pub id: usize,
    /// The cell the character stands on.
    pub pos: GridPosition,
    /// Base mobility: the movement budget the character is granted.
    pub mobi: u8,
    /// Movement budget left: the number of moves the character may still make.
    pub mp: u8,
    /// The direction of the last move attempted, whether or not it succeeded.
    pub facing: Direction,
    /// Hit points.
    pub hp: u8,
    pub state: Status,
    /// Where the character aims during the targeting phase.
    pub selector: Selector,
    /// Step allowance of the selector, granted anew with every targeting
    /// phase. Moving the selector does not draw on it.
    pub selector_steps: u8,
}

impl Character {
    /// A living character with a full movement budget, aiming at its own
    /// cell.
    pub open spec fn fresh(id: usize, pos: GridPosition, facing: Direction, mobi: u8, hp: u8) -> Character {
        Character {
            id,
            pos,
            mobi,
            mp: mobi,
            facing,
            hp,
            state: Status::Alive,
            selector: Selector::on(pos),
            selector_steps: mobi,
        }
    }

    /// The character turned towards `dir`.
    pub open spec fn turned(self, dir: Direction) -> Character {
        Character { facing: dir, ..self }
    }

    /// The character with one movement point less; an empty budget stays
    /// empty.
    pub open spec fn spent(self) -> Character {
        Character { mp: if self.mp > 0 { (self.mp - 1) as u8 } else { 0 }, ..self }
    }

    /// The character with its movement budget restored to its mobility.
    pub open spec fn rested(self) -> Character {
        Character { mp: self.mobi, ..self }
    }

    /// The character after a successful move to `to` in direction `dir`.
    pub open spec fn moved(self, to: GridPosition, dir: Direction) -> Character {
        Character { pos: to, ..self }.spent().turned(dir)
    }

    /// The character as it enters the targeting phase: the selector rests on
    /// its own cell, and both budgets are restored to its mobility.
    pub open spec fn aiming(self) -> Character {
        Character {
            selector: Selector::on(self.pos),
            mp: self.mobi,
            selector_steps: self.mobi,
            ..self
        }
    }

    /// The character with its selector moved one step in direction `dir`.
    pub open spec fn retargeted(self, dir: Direction) -> Character {
        Character { selector: self.selector.stepped(dir), ..self }
    }

    /// Creates a living character with a full movement budget, aiming at its
    /// own cell.
    pub fn new(id: usize, pos: GridPosition, facing: Direction, mobi: u8, hp: u8) -> (c: Character)
        ensures
            c == Character::fresh(id, pos, facing, mobi, hp),
    {
        Character {
            id,
            pos,
            mobi,
            mp: mobi,
            facing,
            hp,
            state: Status::Alive,
            selector: Selector::at(pos),
            selector_steps: mobi,
        }
    }

    /// Turns the character towards `dir`. The facing follows every attempted
    /// move, also one that the board refuses. Returns whether a move was
    /// attempted, which is always the case.
    pub fn apply_move(&mut self, dir: Direction) -> (attempted: bool)
        ensures
            attempted,
            *final(self) == old(self).turned(dir),
    {
        self.facing = dir;
        true
    }

    /// Takes one point off the movement budget. The budget never drops below
    /// zero.
    pub fn spend_movement_point(&mut self)
        ensures
            *final(self) == old(self).spent(),
    {
        if self.mp > 0 {
            self.mp = self.mp - 1;
        }
    }

    /// Restores the movement budget to the character's mobility.
    pub fn reset_movement(&mut self)
        ensures
            *final(self) == old(self).rested(),
    {
        self.mp = self.mobi;
    }

    /// Prepares the character for the targeting phase: the selector is put on
    /// the character's own cell and both budgets are restored.
    pub fn take_aim(&mut self)
        ensures
            *final(self) == old(self).aiming(),
    {
        self.selector = Selector::at(self.pos);
        self.selector_steps = self.mobi;
        self.reset_movement();
    }

    /// Moves the selector one step in direction `dir`. Neither the bounds of
    /// the board nor what stands on it hold the selector back.
    pub fn move_selector(&mut self, dir: Direction)
        ensures
            *final(self) == old(self).retargeted(dir),
    {
        self.selector = self.selector.step(dir);
    }
}

} // verus!
