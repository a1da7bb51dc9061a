//! The turn engine: the match itself, driven by one input event at a time.

use vstd::prelude::*;
use crate::character::{Character, Status};
use crate::direction::{Direction, Input};
use crate::grid::{GridError, GridPosition, Selector, GRID_CELLS};
use crate::layout::ARENA;
use crate::model::{Action, GameModel};
use crate::tile::{Tile, TileState, UNOCCUPIED};
use crate::tile_map::{laid_out, vacant, TileMap};

verus! {

/// The tiles after character `c` has taken its place on them. Only a living
/// character takes a place.
pub open spec fn seat(tiles: Seq<Tile>, c: Character) -> Seq<Tile> {
    if c.state == Status::Alive {
        tiles.update(c.pos.index(), tiles[c.pos.index()].taken_by(c.id))
    } else {
        tiles
    }
}

/// Whether a match can open on `tiles` with the roster `first`, `second`:
/// the characters carry the ids `0` and `1` and stand on the board, nobody
/// is marked on the board yet, no living character starts on a wall, and
/// two living characters start on different cells.
pub open spec fn layout_ok(tiles: Seq<Tile>, first: Character, second: Character) -> bool {
    &&& tiles.len() == GRID_CELLS
    &&& first.id == 0
    &&& second.id == 1
    &&& first.pos.in_bounds()
    &&& second.pos.in_bounds()
    &&& vacant(tiles)
    &&& first.state == Status::Alive ==> tiles[first.pos.index()].state != TileState::Wall
    &&& second.state == Status::Alive ==> tiles[second.pos.index()].state != TileState::Wall
    &&& first.state == Status::Alive && second.state == Status::Alive ==> first.pos != second.pos
}

/// The match as it opens on `tiles` with the roster `first`, `second`: the
/// living characters are marked on the board, the first character is
/// active, the movement phase is on and no turn has ended.
pub open spec fn opening(tiles: Seq<Tile>, first: Character, second: Character) -> GameModel {
    GameModel {
        tiles: seat(seat(tiles, first), second),
        characters: seq![first, second],
        active: 0,
        phase: Action::Move,
        turn: 0,
    }
}

/// The first character of the standard match.
pub open spec fn standard_first() -> Character {
    Character::fresh(0, GridPosition { x: 1, y: 1 }, Direction::Down, 3, 5)
}

/// The second character of the standard match.
pub open spec fn standard_second() -> Character {
    Character::fresh(1, GridPosition { x: 13, y: 13 }, Direction::Up, 3, 5)
}

/// The standard match as it opens.
pub open spec fn standard_opening() -> GameModel {
    opening(laid_out(ARENA@), standard_first(), standard_second())
}

/// The standard match opens valid, in the movement phase of the first
/// character, with no turn ended and both budgets full.
pub proof fn lemma_standard_opening()
    ensures
        standard_opening().wf(),
        standard_opening().phase == Action::Move,
        standard_opening().active == 0,
        standard_opening().turn == 0,
        standard_opening().current().mp == standard_opening().current().mobi,
        standard_opening().characters[0].pos == (GridPosition { x: 1, y: 1 }),
        standard_opening().characters[1].pos == (GridPosition { x: 13, y: 13 }),
{
    let tiles = laid_out(ARENA@);
    assert(ARENA@[17] == 0);
    assert(ARENA@[221] == 0);
    lemma_opening_wf(tiles, standard_first(), standard_second());
}

/// A match that opens on a suitable layout is valid.
pub proof fn lemma_opening_wf(tiles: Seq<Tile>, first: Character, second: Character)
    requires
        layout_ok(tiles, first, second),
    ensures
        opening(tiles, first, second).wf(),
{
    let s = opening(tiles, first, second);
    assert forall|j: int| 0 <= j < s.tiles.len() implies (#[trigger] s.tiles[j]).wf() by {
        assert(!tiles[j].occupied());
    }
    assert forall|i: int| 0 <= i < 2 implies #[trigger] s.seated(i) by {
        if i == 0 {
            assert(s.seated(0));
        } else {
            assert(s.seated(1));
        }
    }
}

/// A match in progress. Its view is the [`GameModel`] it stands for.
#[derive(Clone, Copy, PartialEq, Eq, Debug)]
pub struct GameState {
    characters: [Character; 2],
    action: Action,
    map: TileMap,
    turn: u32,
    char_id: usize,
}

impl View for GameState {
    type V = GameModel;

    closed spec fn view(&self) -> GameModel {
        GameModel {
            tiles: self.map@,
            characters: self.characters@,
            active: self.char_id as int,
            phase: self.action,
            turn: self.turn as int,
        }
    }
}

impl GameState {
    /// Validity of the match; see [`GameModel::wf`]. Every constructor
    /// establishes it and every operation keeps it.
    pub open spec fn wf(&self) -> bool {
        self@.wf()
    }

    /// Opens the standard match: the standard arena, the first character on
    /// cell (1, 1) facing down, the second on cell (13, 13) facing up, each
    /// with mobility 3 and 5 hit points. Both are marked on the board.
    pub fn new() -> (s: Self)
        ensures
            s.wf(),
            s@ == standard_opening(),
    {
        let map = TileMap::from_codes(&ARENA);
        let first = Character::new(0, GridPosition { x: 1, y: 1 }, Direction::Down, 3, 5);
        let second = Character::new(1, GridPosition { x: 13, y: 13 }, Direction::Up, 3, 5);
        proof {
            assert(ARENA@[17] == 0);
            assert(ARENA@[221] == 0);
        }
        GameState::open(map, first, second)
    }

    /// Opens a match on the board `map` with the roster `first`, `second`.
    ///
    /// Succeeds exactly on a suitable layout, see [`layout_ok`]. Refused
    /// with `OutOfBounds` when a character stands off the board, and with
    /// `InvalidMove` when the ids are not `0` and `1`, when somebody is
    /// marked on the board already, when a living character starts on a
    /// wall, or when both living characters start on one cell.
    pub fn with_layout(map: TileMap, first: Character, second: Character) -> (r: Result<
        GameState,
        GridError,
    >)
        ensures
            match r {
                Ok(s) => layout_ok(map@, first, second) && s.wf() && s@ == opening(
                    map@,
                    first,
                    second,
                ),
                Err(GridError::OutOfBounds) => !(first.pos.in_bounds() && second.pos.in_bounds()),
                Err(GridError::InvalidMove) => first.pos.in_bounds() && second.pos.in_bounds()
                    && !layout_ok(map@, first, second),
            },
    {
        proof {
            map.lemma_len();
        }
        if !first.pos.is_valid() || !second.pos.is_valid() {
            return Err(GridError::OutOfBounds);
        }
        if first.id != 0 || second.id != 1 || !map.is_vacant() {
            return Err(GridError::InvalidMove);
        }
        if first.state == Status::Alive && !map.is_passable(first.pos) {
            return Err(GridError::InvalidMove);
        }
        if second.state == Status::Alive && !map.is_passable(second.pos) {
            return Err(GridError::InvalidMove);
        }
        if first.state == Status::Alive && second.state == Status::Alive && first.pos == second.pos {
            return Err(GridError::InvalidMove);
        }
        Ok(GameState::open(map, first, second))
    }

    /// Marks the living characters on the board and opens the match.
    fn open(map: TileMap, first: Character, second: Character) -> (s: GameState)
        requires
            layout_ok(map@, first, second),
        ensures
            s.wf(),
            s@ == opening(map@, first, second),
    {
        let mut board = map;
        if first.state == Status::Alive {
            board.occupy(first.pos, first.id);
        }
        if second.state == Status::Alive {
            board.occupy(second.pos, second.id);
        }
        let s = GameState {
            characters: [first, second],
            action: Action::Move,
            map: board,
            turn: 0,
            char_id: 0,
        };
        proof {
            assert(s@.characters =~= seq![first, second]);
            lemma_opening_wf(map@, first, second);
        }
        s
    }

    /// Tests the validity of the match, [`GameState::wf`], cell by cell.
    pub fn is_consistent(&self) -> (ok: bool)
        ensures
            ok == self.wf(),
    {
        proof {
            self.map.lemma_len();
        }
        if self.char_id >= 2 {
            return false;
        }
        let first = self.characters[0];
        let second = self.characters[1];
        if first.id != 0 || second.id != 1 || !first.pos.is_valid() || !second.pos.is_valid() {
            return false;
        }
        let tiles = self.map.tiles();
        let mut j: usize = 0;
        while j < 256
            invariant
                0 <= j <= 256,
                tiles@ == self@.tiles,
                first == self@.characters[0],
                second == self@.characters[1],
                first.pos.in_bounds(),
                second.pos.in_bounds(),
                forall|k: int| 0 <= k < j ==> (#[trigger] self@.tiles[k]).wf(),
                forall|k: int|
                    0 <= k < j && first.state == Status::Alive && (#[trigger] self@.tiles[k]).char_id
                        == 0 ==> k == first.pos.index(),
                forall|k: int|
                    0 <= k < j && second.state == Status::Alive && (#[trigger] self@.tiles[k]).char_id
                        == 1 ==> k == second.pos.index(),
                forall|k: int|
                    0 <= k < j && k == first.pos.index() && first.state == Status::Alive ==> (
                    #[trigger] self@.tiles[k]).char_id == 0,
                forall|k: int|
                    0 <= k < j && k == second.pos.index() && second.state == Status::Alive ==> (
                    #[trigger] self@.tiles[k]).char_id == 1,
            decreases 256 - j,
        {
            let tile = tiles[j];
            let here_first: bool = first.state == Status::Alive && first.pos.as_index() == j;
            let here_second: bool = second.state == Status::Alive && second.pos.as_index() == j;
            let wall_taken: bool = tile.state == TileState::Wall && tile.char_id != UNOCCUPIED;
            let first_astray: bool = first.state == Status::Alive && (tile.char_id == 0) != here_first;
            let second_astray: bool = second.state == Status::Alive && (tile.char_id == 1)
                != here_second;
            if wall_taken || first_astray || second_astray {
                proof {
                    if wall_taken {
                        assert(!self@.tiles[j as int].wf());
                    } else if first_astray {
                        assert(!self@.seated(0));
                    } else {
                        assert(!self@.seated(1));
                    }
                }
                return false;
            }
            j += 1;
        }
        proof {
            assert forall|i: int| 0 <= i < 2 implies #[trigger] self@.seated(i) by {
                if i == 0 {
                    assert(self@.seated(0));
                } else {
                    assert(self@.seated(1));
                }
            }
        }
        true
    }

    /// The board.
    pub fn map(&self) -> (m: &TileMap)
        ensures
            m@ == self@.tiles,
    {
        &self.map
    }

    /// The phase of the turn in progress.
    pub fn action(&self) -> (phase: Action)
        ensures
            phase == self@.phase,
    {
        self.action
    }

    /// Number of turns ended so far.
    pub fn turn(&self) -> (n: u32)
        ensures
            n == self@.turn,
    {
        self.turn
    }

    /// Index in the roster of the character whose turn it is.
    pub fn active(&self) -> (i: usize)
        ensures
            i == self@.active,
    {
        self.char_id
    }

    /// Character `i` of the roster, or `None` when the roster has no such
    /// entry.
    pub fn character(&self, i: usize) -> (c: Option<Character>)
        ensures
            c == (if i < self@.characters.len() { Some(self@.characters[i as int]) } else { None }),
            self@.characters.len() == 2,
    {
        if i < 2 {
            Some(self.characters[i])
        } else {
            None
        }
    }

    /// The character whose turn it is.
    pub fn active_character(&self) -> (c: Character)
        requires
            self.wf(),
        ensures
            c == self@.current(),
    {
        self.characters[self.char_id]
    }

    /// The selector of the active character while the targeting phase is on;
    /// `None` during the movement phase.
    pub fn selector(&self) -> (sel: Option<Selector>)
        requires
            self.wf(),
        ensures
            sel == (if self@.phase == Action::Attack { Some(self@.current().selector) } else { None }),
    {
        match self.action {
            Action::Attack => Some(self.characters[self.char_id].selector),
            Action::Move => None,
        }
    }

    /// The budget check that precedes the handling of every input: when the
    /// movement phase is on and the active character has no movement point
    /// left, the targeting phase begins.
    pub fn check_budget(&mut self)
        requires
            old(self).wf(),
        ensures
            final(self).wf(),
            final(self)@ == old(self)@.checked(),
    {
        if self.action == Action::Move && self.characters[self.char_id].mp == 0 {
            self.begin_targeting();
        }
        proof {
            crate::laws::lemma_checked_keeps_wf(old(self)@);
        }
    }

    /// Enters the targeting phase with the active character.
    fn begin_targeting(&mut self)
        requires
            0 <= old(self)@.active < 2,
        ensures
            final(self)@ == old(self)@.targeting(),
    {
        self.characters[self.char_id].take_aim();
        self.action = Action::Attack;
    }

    /// Lets the active character try one step in direction `dir`.
    fn walk(&mut self, dir: Direction)
        requires
            old(self).wf(),
        ensures
            final(self)@ == old(self)@.walked(dir),
    {
        let c = self.characters[self.char_id];
        match c.pos.neighbour(dir) {
            Some(to) => {
                match self.map.move_occupant(c.pos, to, c.id) {
                    Ok(_) => {
                        self.characters[self.char_id].pos = to;
                        self.characters[self.char_id].spend_movement_point();
                    },
                    // A refused move is a move not taken.
                    Err(_) => {},
                }
            },
            None => {},
        }
        self.characters[self.char_id].apply_move(dir);
        proof {
            let goal = old(self)@.walked(dir);
            assert(self@.characters =~= goal.characters);
            assert(self@.tiles =~= goal.tiles);
        }
    }

    /// Ends the turn and hands over to the next character of the roster.
    fn end_turn(&mut self)
        requires
            0 <= old(self)@.active < 2,
        ensures
            final(self)@ == old(self)@.turn_ended(),
    {
        if self.turn < u32::MAX {
            self.turn = self.turn + 1;
        }
        self.action = Action::Move;
        self.char_id = (self.char_id + 1) % 2;
    }

    /// Handles one input event according to the rules of play,
    /// [`GameModel::step`].
    ///
    /// First comes the budget check. The input is handled in the phase that
    /// the check leaves. In the movement phase a direction lets the active
    /// character try a step and turns it that way, and `Confirm` begins the
    /// targeting phase. In the targeting phase a direction moves the selector
    /// and `Confirm` ends the turn. Anything else changes nothing.
    pub fn key_down_event(&mut self, input: Input)
        requires
            old(self).wf(),
        ensures
            final(self).wf(),
            final(self)@ == old(self)@.step(input),
    {
        self.check_budget();
        match self.action {
            Action::Move => match Direction::from_keycode(input) {
                Some(dir) => self.walk(dir),
                None => if input == Input::Confirm {
                    self.begin_targeting();
                },
            },
            Action::Attack => match Direction::from_keycode(input) {
                Some(dir) => self.characters[self.char_id].move_selector(dir),
                None => if input == Input::Confirm {
                    self.end_turn();
                },
            },
        }
        proof {
            crate::laws::lemma_step_keeps_wf(old(self)@, input);
        }
    }
}

} // verus!
