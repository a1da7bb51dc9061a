//! The board: a fixed grid of tiles with checked queries and the single
//! operation that moves an occupant from one tile to another.

use vstd::prelude::*;
use crate::direction::Direction;
use crate::grid::{GridError, GridPosition, GRID_CELLS};
use crate::tile::{Tile, TileState, UNOCCUPIED};

verus! {

/// Whether a character may step onto cell `pos` of `tiles`. A coordinate off
/// the board is never passable.
pub open spec fn passable_at(tiles: Seq<Tile>, pos: GridPosition) -> bool {
    pos.in_bounds() && tiles[pos.index()].passable()
}

/// Whether character `id` may be moved from `from` to `to`: both are cells,
/// `id` stands on `from`, and `to` is passable.
pub open spec fn move_allowed(tiles: Seq<Tile>, from: GridPosition, to: GridPosition, id: usize) -> bool {
    &&& from.in_bounds()
    &&& to.in_bounds()
    &&& id != UNOCCUPIED
    &&& tiles[from.index()].char_id == id
    &&& tiles[to.index()].passable()
}

/// The tiles after character `id` has left `from` and arrived on `to`.
pub open spec fn after_move(tiles: Seq<Tile>, from: GridPosition, to: GridPosition, id: usize) -> Seq<Tile> {
    tiles.update(from.index(), tiles[from.index()].vacated()).update(
        to.index(),
        tiles[to.index()].taken_by(id),
    )
}

/// Whether no wall of `tiles` is occupied.
pub open spec fn walls_clear(tiles: Seq<Tile>) -> bool {
    forall|i: int| 0 <= i < tiles.len() ==> (#[trigger] tiles[i]).wf()
}

/// Whether the terrain of cell `pos` may be changed to `kind`: a tile somebody
/// stands on cannot be walled up.
pub open spec fn terrain_allowed(tiles: Seq<Tile>, pos: GridPosition, kind: TileState) -> bool {
    pos.in_bounds() && !(kind == TileState::Wall && tiles[pos.index()].occupied())
}

/// Whether nobody stands anywhere on `tiles`.
pub open spec fn vacant(tiles: Seq<Tile>) -> bool {
    forall|i: int| 0 <= i < tiles.len() ==> !(#[trigger] tiles[i]).occupied()
}

/// The tiles that a layout table describes: one unoccupied tile per code.
pub open spec fn laid_out(codes: Seq<u8>) -> Seq<Tile> {
    Seq::new(codes.len(), |i: int| Tile::blank(TileState::of_code(codes[i])))
}

/// A board of [`GRID_CELLS`] tiles in row-major order. Its view is the
/// sequence of its tiles.
#[derive(Clone, Copy, PartialEq, Eq, Debug)]
pub struct TileMap {
    tiles: [Tile; 256],
}

impl View for TileMap {
    type V = Seq<Tile>;

    closed spec fn view(&self) -> Seq<Tile> {
        self.tiles@
    }
}

impl TileMap {
    /// A board always has [`GRID_CELLS`] tiles.
    pub proof fn lemma_len(self)
        ensures
            self@.len() == GRID_CELLS,
    {
    }

    /// Creates a board whose every tile is a copy of `arr`.
    pub fn new(arr: Tile) -> (m: Self)
        ensures
            m@ == Seq::new(GRID_CELLS as nat, |i: int| arr),
            arr.wf() ==> walls_clear(m@),
    {
        TileMap { tiles: [arr; 256] }
    }

    /// Lays out a board from a table of terrain codes in row-major order:
    /// `1` is a wall, `2` a trap, anything else open ground. Nobody stands
    /// on the new board.
    pub fn from_codes(codes: &[u8; 256]) -> (m: Self)
        ensures
            m@ == laid_out(codes@),
            vacant(m@),
            walls_clear(m@),
    {
        let mut m = TileMap::new(Tile::new(TileState::Empty));
        let mut i: usize = 0;
        while i < 256
            invariant
                0 <= i <= 256,
                m@.len() == 256,
                forall|j: int| 0 <= j < i ==> #[trigger] m@[j] == Tile::blank(TileState::of_code(codes@[j])),
                forall|j: int| i <= j < 256 ==> #[trigger] m@[j] == Tile::blank(TileState::Empty),
            decreases 256 - i,
        {
            m.tiles[i].state = TileState::from_code(codes[i]);
            i += 1;
        }
        assert(m@ =~= laid_out(codes@));
        m
    }

    /// Whether nobody stands anywhere on the board.
    pub fn is_vacant(&self) -> (free: bool)
        ensures
            free == vacant(self@),
    {
        let mut i: usize = 0;
        while i < 256
            invariant
                0 <= i <= 256,
                forall|j: int| 0 <= j < i ==> !(#[trigger] self@[j]).occupied(),
            decreases 256 - i,
        {
            if self.tiles[i].char_id != UNOCCUPIED {
                return false;
            }
            i += 1;
        }
        true
    }

    /// All tiles of the board in row-major order, for reading.
    pub fn tiles(&self) -> (all: &[Tile; 256])
        ensures
            all@ == self@,
    {
        &self.tiles
    }

    /// The tile of cell `pos`, or `OutOfBounds` when `pos` names no cell.
    pub fn tile_at(&self, pos: GridPosition) -> (r: Result<Tile, GridError>)
        ensures
            pos.in_bounds() ==> r == Ok::<Tile, GridError>(self@[pos.index()]),
            !pos.in_bounds() ==> r == Err::<Tile, GridError>(GridError::OutOfBounds),
    {
        if pos.is_valid() {
            Ok(self.tiles[pos.as_index()])
        } else {
            Err(GridError::OutOfBounds)
        }
    }

    /// Whether a character may step onto cell `pos`: false for a wall, and
    /// otherwise true exactly when nobody stands there. False off the board.
    pub fn is_passable(&self, pos: GridPosition) -> (free: bool)
        ensures
            free == passable_at(self@, pos),
    {
        if pos.is_valid() {
            self.tiles[pos.as_index()].is_empty()
        } else {
            false
        }
    }

    /// The tile next to `pos` in direction `dir`, or `OutOfBounds` when the
    /// step would leave the board.
    pub fn neighbour(&self, pos: GridPosition, dir: Direction) -> (r: Result<Tile, GridError>)
        ensures
            match pos.adjacent(dir) {
                Some(q) => q.in_bounds() && r == Ok::<Tile, GridError>(self@[q.index()]),
                None => r == Err::<Tile, GridError>(GridError::OutOfBounds),
            },
    {
        match pos.neighbour(dir) {
            Some(q) => Ok(self.tiles[q.as_index()]),
            None => Err(GridError::OutOfBounds),
        }
    }

    /// Whether the cell next to `pos` in direction `dir` exists and is
    /// passable.
    pub fn is_available(&self, pos: GridPosition, dir: Direction) -> (free: bool)
        ensures
            free == match pos.adjacent(dir) {
                Some(q) => passable_at(self@, q),
                None => false,
            },
    {
        match self.neighbour(pos, dir) {
            Ok(tile) => tile.is_empty(),
            Err(_) => false,
        }
    }

    /// Moves character `char_id` from cell `from` to cell `to`.
    ///
    /// Succeeds exactly when both are cells of the board, `char_id` stands on
    /// `from`, and `to` is passable; `from` is vacated and `to` taken, and no
    /// other tile changes. Otherwise the board is left untouched and the
    /// error says why: `OutOfBounds` if either coordinate names no cell,
    /// `InvalidMove` if the occupancy or the terrain forbids the move.
    pub fn move_occupant(&mut self, from: GridPosition, to: GridPosition, char_id: usize) -> (r: Result<
        (),
        GridError,
    >)
        ensures
            match r {
                Ok(_) => move_allowed(old(self)@, from, to, char_id) && final(self)@ == after_move(
                    old(self)@,
                    from,
                    to,
                    char_id,
                ),
                Err(GridError::OutOfBounds) => !(from.in_bounds() && to.in_bounds()) && final(self)@
                    == old(self)@,
                Err(GridError::InvalidMove) => from.in_bounds() && to.in_bounds() && !move_allowed(
                    old(self)@,
                    from,
                    to,
                    char_id,
                ) && final(self)@ == old(self)@,
            },
            walls_clear(old(self)@) ==> walls_clear(final(self)@),
    {
        if !from.is_valid() || !to.is_valid() {
            return Err(GridError::OutOfBounds);
        }
        let src: usize = from.as_index();
        let dst: usize = to.as_index();
        if char_id == UNOCCUPIED || self.tiles[src].char_id != char_id || !self.tiles[dst].is_empty() {
            return Err(GridError::InvalidMove);
        }
        self.tiles[src].char_id = UNOCCUPIED;
        self.tiles[dst].char_id = char_id;
        Ok(())
    }

    /// Changes the terrain of cell `pos` to `kind`, keeping its occupant and
    /// cooldown. Refused with `OutOfBounds` off the board, and with
    /// `InvalidMove` when a wall is asked for where somebody stands; the
    /// board is left untouched in either case.
    pub fn set_terrain(&mut self, pos: GridPosition, kind: TileState) -> (r: Result<(), GridError>)
        ensures
            match r {
                Ok(_) => terrain_allowed(old(self)@, pos, kind) && final(self)@ == old(self)@.update(
                    pos.index(),
                    old(self)@[pos.index()].with_state(kind),
                ),
                Err(GridError::OutOfBounds) => !pos.in_bounds() && final(self)@ == old(self)@,
                Err(GridError::InvalidMove) => pos.in_bounds() && !terrain_allowed(
                    old(self)@,
                    pos,
                    kind,
                ) && final(self)@ == old(self)@,
            },
            walls_clear(old(self)@) ==> walls_clear(final(self)@),
    {
        if !pos.is_valid() {
            return Err(GridError::OutOfBounds);
        }
        let i: usize = pos.as_index();
        if kind == TileState::Wall && self.tiles[i].char_id != UNOCCUPIED {
            return Err(GridError::InvalidMove);
        }
        self.tiles[i].state = kind;
        Ok(())
    }

    /// Puts character `char_id` on the passable cell `pos`.
    pub(crate) fn occupy(&mut self, pos: GridPosition, char_id: usize)
        requires
            passable_at(old(self)@, pos),
        ensures
            final(self)@ == old(self)@.update(pos.index(), old(self)@[pos.index()].taken_by(char_id)),
            walls_clear(old(self)@) ==> walls_clear(final(self)@),
    {
        let i: usize = pos.as_index();
        self.tiles[i].char_id = char_id;
    }
}

} // verus!
