//! Tiles: the terrain of one cell and who stands on it.

use vstd::prelude::*;

verus! {

/// Number of characters in a match. Their ids are `0` and `1`.
pub const NB_CHAR: usize = 2;

/// The occupancy mark of a tile nobody stands on. It is the id of no character.
pub const UNOCCUPIED: usize = NB_CHAR + 1;

/// The terrain of a tile.
#[derive(Clone, Copy, PartialEq, Eq, Debug, Structural)]
pub enum TileState {
    /// Open ground.
    Empty,
    /// Solid: nobody ever stands on a wall.
    Wall,
    /// Marked ground. A trap does not hinder entry.
    Trap,
}

/// One cell of the board: its terrain, a cooldown counter kept for traps, and
/// the id of the character standing on it, or [`UNOCCUPIED`].
#[derive(Clone, Copy, PartialEq, Eq, Debug, Structural)]
pub struct Tile {
    pub state: TileState,
    pub cooldown: u32,
    pub char_id: usize,
}

impl TileState {
    /// The terrain that a code of the layout table stands for.
    pub open spec fn of_code(code: u8) -> TileState {
        if code == 2 {
            TileState::Trap
        } else if code == 1 {
            TileState::Wall
        } else {
            TileState::Empty
        }
    }

    /// Reads one code of a layout table: `1` is a wall, `2` a trap, anything
    /// else open ground.
    pub fn from_code(code: u8) -> (kind: TileState)
        ensures
            kind == TileState::of_code(code),
    {
        match code {
            2 => TileState::Trap,
            1 => TileState::Wall,
            _ => TileState::Empty,
        }
    }
}

impl Tile {
    /// Whether somebody stands on the tile.
    pub open spec fn occupied(self) -> bool {
        self.char_id != UNOCCUPIED
    }

    /// Whether a character may step onto the tile: it is no wall and nobody
    /// stands on it.
    pub open spec fn passable(self) -> bool {
        self.state != TileState::Wall && self.char_id == UNOCCUPIED
    }

    /// A wall is never occupied.
    pub open spec fn wf(self) -> bool {
        self.state == TileState::Wall ==> self.char_id == UNOCCUPIED
    }

    /// The tile after its occupant has left.
    pub open spec fn vacated(self) -> Tile {
        Tile { state: self.state, cooldown: self.cooldown, char_id: UNOCCUPIED }
    }

    /// The tile with character `id` standing on it.
    pub open spec fn taken_by(self, id: usize) -> Tile {
        Tile { state: self.state, cooldown: self.cooldown, char_id: id }
    }

    /// The tile with its terrain changed to `kind`.
    pub open spec fn with_state(self, kind: TileState) -> Tile {
        Tile { state: kind, cooldown: self.cooldown, char_id: self.char_id }
    }

    /// An unoccupied tile of terrain `kind`, with no cooldown running.
    pub open spec fn blank(kind: TileState) -> Tile {
        Tile { state: kind, cooldown: 0, char_id: UNOCCUPIED }
    }

    /// Creates an unoccupied tile of terrain `kind`.
    pub fn new(kind: TileState) -> (t: Tile)
        ensures
            t == Tile::blank(kind),
            t.wf(),
    {
        Tile { state: kind, cooldown: 0, char_id: UNOCCUPIED }
    }

    /// Whether a character may step onto the tile. A wall never is empty; open
    /// ground and traps are empty exactly when unoccupied.
    pub fn is_empty(&self) -> (free: bool)
        ensures
            free == self.passable(),
    {
        match self.state {
            TileState::Wall => false,
            _ => self.char_id == UNOCCUPIED,
        }
    }

    /// The id of the character standing on the tile, if any.
    pub fn occupant(&self) -> (who: Option<usize>)
        ensures
            who == (if self.occupied() { Some(self.char_id) } else { None }),
    {
        if self.char_id == UNOCCUPIED {
            None
        } else {
            Some(self.char_id)
        }
    }
}

} // verus!
