//! Grid addressing: cell coordinates, their row-major indices, and neighbours.

use vstd::prelude::*;
use vstd::std_specs::convert::FromSpecImpl;
use crate::direction::Direction;

verus! {

/// Number of columns of the board.
pub const GRID_X: u16 = 16;

/// Number of rows of the board.
pub const GRID_Y: u16 = 16;

/// Number of cells of the board.
pub const GRID_CELLS: usize = 256;

/// Why a query or a mutation of the board was refused.
#[derive(Clone, Copy, PartialEq, Eq, Debug, Structural)]
pub enum GridError {
    /// A coordinate or an index names no cell of the board.
    OutOfBounds,
    /// The occupancy or the terrain of the tiles involved forbids the change.
    InvalidMove,
}

/// A cell coordinate: column `x`, row `y`. A value of this type may lie outside
/// the board; [`GridPosition::in_bounds`] says whether it names a cell.
#[derive(Clone, Copy, PartialEq, Eq, Debug, Structural)]
pub struct GridPosition {
    pub x: u16,
    pub y: u16,
}

impl GridPosition {
    /// Whether the coordinate names a cell of the board.
    pub open spec fn in_bounds(self) -> bool {
        self.x < GRID_X && self.y < GRID_Y
    }

    /// Row-major index of the coordinate: `x + y * GRID_X`.
    pub open spec fn index(self) -> int {
        self.x + self.y * 16
    }

    /// The cell with row-major index `i`.
    pub open spec fn at(i: int) -> GridPosition {
        GridPosition { x: (i % 16) as u16, y: (i / 16) as u16 }
    }

    /// The coordinate one step away in direction `dir`, if that is a cell of
    /// the board.
    pub open spec fn adjacent(self, dir: Direction) -> Option<GridPosition> {
        let x = self.x + dir.dx();
        let y = self.y + dir.dy();
        if 0 <= x < GRID_X && 0 <= y < GRID_Y {
            Some(GridPosition { x: x as u16, y: y as u16 })
        } else {
            None
        }
    }

    /// Tests whether the coordinate names a cell of the board.
    pub fn is_valid(&self) -> (ok: bool)
        ensures
            ok == self.in_bounds(),
    {
        self.x < GRID_X && self.y < GRID_Y
    }

    /// Row-major index of the coordinate. For a cell of the board the index
    /// is below [`GRID_CELLS`].
    pub fn as_index(&self) -> (i: usize)
        ensures
            i == self.index(),
            self.in_bounds() ==> i < GRID_CELLS,
    {
        self.x as usize + self.y as usize * 16
    }

    /// The cell with row-major index `i`; `OutOfBounds` when `i` is not below
    /// [`GRID_CELLS`]. Inverse of [`GridPosition::as_index`] on the board.
    pub fn from_index(i: usize) -> (r: Result<GridPosition, GridError>)
        ensures
            i < GRID_CELLS ==> r == Ok::<GridPosition, GridError>(GridPosition::at(i as int)),
            i >= GRID_CELLS ==> r == Err::<GridPosition, GridError>(GridError::OutOfBounds),
            r matches Ok(p) ==> p.in_bounds() && p.index() == i,
    {
        if i < GRID_CELLS {
            Ok(GridPosition { x: (i % 16) as u16, y: (i / 16) as u16 })
        } else {
            Err(GridError::OutOfBounds)
        }
    }

    /// The neighbouring cell in direction `dir`, or `None` when the step would
    /// leave the board. A returned coordinate always names a cell.
    pub fn neighbour(&self, dir: Direction) -> (r: Option<GridPosition>)
        ensures
            r == self.adjacent(dir),
            r matches Some(q) ==> q.in_bounds(),
    {
        match dir {
            Direction::Up => {
                if self.y >= 1 && self.y <= GRID_Y && self.x < GRID_X {
                    Some(GridPosition { x: self.x, y: self.y - 1 })
                } else {
                    None
                }
            },
            Direction::Down => {
                if self.y < GRID_Y - 1 && self.x < GRID_X {
                    Some(GridPosition { x: self.x, y: self.y + 1 })
                } else {
                    None
                }
            },
            Direction::Left => {
                if self.x >= 1 && self.x <= GRID_X && self.y < GRID_Y {
                    Some(GridPosition { x: self.x - 1, y: self.y })
                } else {
                    None
                }
            },
            Direction::Right => {
                if self.x < GRID_X - 1 && self.y < GRID_Y {
                    Some(GridPosition { x: self.x + 1, y: self.y })
                } else {
                    None
                }
            },
        }
    }
}

impl From<(u16, u16)> for GridPosition {
    /// The coordinate with column `pos.0` and row `pos.1`.
    fn from(pos: (u16, u16)) -> (p: GridPosition) {
        GridPosition { x: pos.0, y: pos.1 }
    }
}

impl FromSpecImpl<(u16, u16)> for GridPosition {
    open spec fn obeys_from_spec() -> bool {
        true
    }

    open spec fn from_spec(pos: (u16, u16)) -> GridPosition {
        GridPosition { x: pos.0, y: pos.1 }
    }
}

/// Where the targeting selector points. Unlike a character, the selector is
/// free to wander off the board, in every direction, so its coordinates are
/// signed.
#[derive(Clone, Copy, PartialEq, Eq, Debug, Structural)]
pub struct Selector {
    pub x: i32,
    pub y: i32,
}

impl Selector {
    /// The selector resting on coordinate `pos`.
    pub open spec fn on(pos: GridPosition) -> Selector {
        Selector { x: pos.x as i32, y: pos.y as i32 }
    }

    /// The selector after one step in direction `dir`. No bound of the board
    /// stops it; only at the limits of its coordinates does it stay put.
    pub open spec fn stepped(self, dir: Direction) -> Selector {
        let x = self.x + dir.dx();
        let y = self.y + dir.dy();
        if i32::MIN <= x <= i32::MAX && i32::MIN <= y <= i32::MAX {
            Selector { x: x as i32, y: y as i32 }
        } else {
            self
        }
    }

    /// The cell under the selector, if it points at the board.
    pub open spec fn target(self) -> Option<GridPosition> {
        if 0 <= self.x < GRID_X && 0 <= self.y < GRID_Y {
            Some(GridPosition { x: self.x as u16, y: self.y as u16 })
        } else {
            None
        }
    }

    /// Puts the selector on coordinate `pos`.
    pub fn at(pos: GridPosition) -> (s: Selector)
        ensures
            s == Selector::on(pos),
            s.x == pos.x,
            s.y == pos.y,
    {
        Selector { x: pos.x as i32, y: pos.y as i32 }
    }

    /// Moves the selector one step in direction `dir`, on or off the board.
    pub fn step(&self, dir: Direction) -> (s: Selector)
        ensures
            s == self.stepped(dir),
    {
        match dir {
            Direction::Up => Selector { x: self.x, y: self.y.checked_sub(1).unwrap_or(self.y) },
            Direction::Down => Selector { x: self.x, y: self.y.checked_add(1).unwrap_or(self.y) },
            Direction::Left => Selector { x: self.x.checked_sub(1).unwrap_or(self.x), y: self.y },
            Direction::Right => Selector { x: self.x.checked_add(1).unwrap_or(self.x), y: self.y },
        }
    }

    /// The cell the selector points at, or `None` while it is off the board.
    pub fn cell(&self) -> (r: Option<GridPosition>)
        ensures
            r == self.target(),
            r matches Some(p) ==> p.in_bounds() && Selector::on(p) == *self,
    {
        if 0 <= self.x && self.x < 16 && 0 <= self.y && self.y < 16 {
            Some(GridPosition { x: self.x as u16, y: self.y as u16 })
        } else {
            None
        }
    }
}

/// On the board, coordinates and indices below [`GRID_CELLS`] correspond one
/// to one: taking the index of a cell and the cell of that index gives the
/// cell back.
pub proof fn lemma_index_of_cell(p: GridPosition)
    requires
        p.in_bounds(),
    ensures
        0 <= p.index() < GRID_CELLS,
        GridPosition::at(p.index()) == p,
{
}

/// Taking the cell of an index below [`GRID_CELLS`] and the index of that cell
/// gives the index back.
pub proof fn lemma_cell_of_index(i: int)
    requires
        0 <= i < GRID_CELLS,
    ensures
        GridPosition::at(i).in_bounds(),
        GridPosition::at(i).index() == i,
{
}

/// Two cells of the board with the same index are the same cell.
pub proof fn lemma_index_injective(p: GridPosition, q: GridPosition)
    requires
        p.in_bounds(),
        q.in_bounds(),
        p.index() == q.index(),
    ensures
        p == q,
{
}

/// A neighbour is never outside the board, whatever coordinate the step starts
/// from, and it lies exactly one step away.
pub proof fn lemma_adjacent_in_bounds(p: GridPosition, dir: Direction)
    ensures
        p.adjacent(dir) matches Some(q) ==> q.in_bounds() && q.x == p.x + dir.dx() && q.y == p.y
            + dir.dy(),
        p.adjacent(dir) is None <==> !(0 <= p.x + dir.dx() < GRID_X && 0 <= p.y + dir.dy()
            < GRID_Y),
{
}

/// A step off an edge of the board has no neighbour: it is refused, never
/// wrapped round to the opposite edge.
pub proof fn lemma_no_neighbour_past_edge(p: GridPosition)
    requires
        p.in_bounds(),
    ensures
        p.y == 0 ==> p.adjacent(Direction::Up) is None,
        p.y == GRID_Y - 1 ==> p.adjacent(Direction::Down) is None,
        p.x == 0 ==> p.adjacent(Direction::Left) is None,
        p.x == GRID_X - 1 ==> p.adjacent(Direction::Right) is None,
{
}

} // verus!
