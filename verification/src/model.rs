//! The mathematical model of a match and the rules of play.
//!
//! A match is a value of [`GameModel`]; the rules are the pure function
//! [`GameModel::step`] from a state and an input event to the next state.

use vstd::prelude::*;
use crate::character::{Character, Status};
use crate::direction::{Direction, Input};
use crate::grid::GRID_CELLS;
use crate::tile::{Tile, NB_CHAR};
use crate::tile_map::{after_move, move_allowed, walls_clear};

verus! {

/// The phase of the turn in progress.
#[derive(Clone, Copy, PartialEq, Eq, Debug, Structural)]
pub enum Action {
    /// The active character positions its selector.
    Attack,
    /// The active character spends its movement budget.
    Move,
}

/// A match as a mathematical value.
pub struct GameModel {
    /// The tiles of the board in row-major order.
    pub tiles: Seq<Tile>,
    /// The roster.
    pub characters: Seq<Character>,
    /// Index in the roster of the character whose turn it is.
    pub active: int,
    /// The phase of the turn in progress.
    pub phase: Action,
    /// Number of turns ended so far.
    pub turn: int,
}

impl GameModel {
    /// The character whose turn it is.
    pub open spec fn current(self) -> Character {
        self.characters[self.active]
    }

    /// The match with the active character replaced by `c`.
    pub open spec fn with_current(self, c: Character) -> GameModel {
        GameModel { characters: self.characters.update(self.active, c), ..self }
    }

    /// Whether board and roster agree on where character `i` stands: if it
    /// is alive, the tile at its position carries its id, and no other tile
    /// does.
    pub open spec fn seated(self, i: int) -> bool {
        let c = self.characters[i];
        c.state == Status::Alive ==> {
            &&& self.tiles[c.pos.index()].char_id == i
            &&& forall|j: int|
                0 <= j < self.tiles.len() && (#[trigger] self.tiles[j]).char_id == i ==> j
                    == c.pos.index()
        }
    }

    /// Validity of a match: the board and the roster have their fixed sizes,
    /// every character carries its roster index as id and stands on the
    /// board, no wall is occupied, and board and roster agree on where every
    /// living character stands.
    pub open spec fn wf(self) -> bool {
        &&& self.tiles.len() == GRID_CELLS
        &&& self.characters.len() == NB_CHAR
        &&& 0 <= self.active < NB_CHAR
        &&& 0 <= self.turn <= u32::MAX
        &&& walls_clear(self.tiles)
        &&& forall|i: int|
            0 <= i < NB_CHAR ==> (#[trigger] self.characters[i]).id == i
                && self.characters[i].pos.in_bounds()
        &&& forall|i: int| 0 <= i < NB_CHAR ==> #[trigger] self.seated(i)
    }

    /// Whether the active character has used up its movement budget while
    /// the movement phase is still on.
    pub open spec fn exhausted(self) -> bool {
        self.phase == Action::Move && self.current().mp == 0
    }

    /// The match after the active character has entered the targeting phase.
    pub open spec fn targeting(self) -> GameModel {
        GameModel { phase: Action::Attack, ..self.with_current(self.current().aiming()) }
    }

    /// The match after the budget check that precedes the handling of every
    /// input: an exhausted movement phase gives way to the targeting phase.
    pub open spec fn checked(self) -> GameModel {
        if self.exhausted() {
            self.targeting()
        } else {
            self
        }
    }

    /// Whether the active character can walk one step in direction `dir`:
    /// the neighbouring cell exists and is passable, and the character
    /// stands where the board says.
    pub open spec fn can_walk(self, dir: Direction) -> bool {
        match self.current().pos.adjacent(dir) {
            Some(to) => move_allowed(self.tiles, self.current().pos, to, self.current().id),
            None => false,
        }
    }

    /// The match after the active character has tried to walk one step in
    /// direction `dir`. A step that can be taken moves the occupant on the
    /// board, moves the character and costs one movement point. The
    /// character turns towards `dir` in either case.
    pub open spec fn walked(self, dir: Direction) -> GameModel {
        let c = self.current();
        if self.can_walk(dir) {
            let to = c.pos.adjacent(dir)->0;
            GameModel {
                tiles: after_move(self.tiles, c.pos, to, c.id),
                ..self.with_current(c.moved(to, dir))
            }
        } else {
            self.with_current(c.turned(dir))
        }
    }

    /// The match after the turn has ended: one more turn is counted, the
    /// movement phase begins, and the next character of the roster becomes
    /// active. The counter stops at its numeric limit.
    pub open spec fn turn_ended(self) -> GameModel {
        GameModel {
            turn: if self.turn < u32::MAX { self.turn + 1 } else { self.turn },
            phase: Action::Move,
            active: (self.active + 1) % (NB_CHAR as int),
            ..self
        }
    }

    /// The response of the match to `input` in its current phase, the budget
    /// check aside.
    pub open spec fn respond(self, input: Input) -> GameModel {
        match self.phase {
            Action::Move => match input.direction() {
                Some(dir) => self.walked(dir),
                None => if input == Input::Confirm {
                    self.targeting()
                } else {
                    self
                },
            },
            Action::Attack => match input.direction() {
                Some(dir) => self.with_current(self.current().retargeted(dir)),
                None => if input == Input::Confirm {
                    self.turn_ended()
                } else {
                    self
                },
            },
        }
    }

    /// The rules of play: the match after `input` has been handled. The
    /// budget check comes first; the input is handled in the phase that the
    /// check leaves.
    pub open spec fn step(self, input: Input) -> GameModel {
        self.checked().respond(input)
    }

    /// The match after the events of `inputs` have been handled in order.
    pub open spec fn run(self, inputs: Seq<Input>) -> GameModel
        decreases inputs.len(),
    {
        if inputs.len() == 0 {
            self
        } else {
            self.run(inputs.drop_last()).step(inputs.last())
        }
    }
}

} // verus!
