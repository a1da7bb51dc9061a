//! Screen geometry: where on a canvas of square cells a tile, a selector and
//! the marker of a character belong. Coordinates are whole pixels; drawing
//! itself is left to the caller.

use vstd::prelude::*;
use vstd::std_specs::convert::FromSpecImpl;
use crate::character::Character;
use crate::direction::Direction;
use crate::grid::{GridPosition, Selector};

verus! {

/// Width of a cell in pixels.
pub const RES_X: u16 = 32;

/// Height of a cell in pixels.
pub const RES_Y: u16 = 32;

/// A point of the canvas.
#[derive(Clone, Copy, PartialEq, Eq, Debug, Structural)]
pub struct Pixel {
    pub x: i64,
    pub y: i64,
}

/// An upright rectangle of the canvas: top left corner, width and height.
#[derive(Clone, Copy, PartialEq, Eq, Debug, Structural)]
pub struct PixelRect {
    pub x: i64,
    pub y: i64,
    pub w: i64,
    pub h: i64,
}

impl PixelRect {
    /// The square that the cell in column `x` and row `y` covers.
    pub open spec fn of_cell(x: int, y: int) -> PixelRect {
        PixelRect { x: (x * 32) as i64, y: (y * 32) as i64, w: 32, h: 32 }
    }

    /// Whether point `p` lies in the rectangle, its border taken in.
    pub open spec fn holds(self, p: Pixel) -> bool {
        self.x <= p.x <= self.x + self.w && self.y <= p.y <= self.y + self.h
    }
}

impl From<GridPosition> for PixelRect {
    /// The square that cell `pos` covers on the canvas.
    fn from(pos: GridPosition) -> (r: PixelRect) {
        PixelRect { x: pos.x as i64 * 32, y: pos.y as i64 * 32, w: 32, h: 32 }
    }
}

impl FromSpecImpl<GridPosition> for PixelRect {
    open spec fn obeys_from_spec() -> bool {
        true
    }

    open spec fn from_spec(pos: GridPosition) -> PixelRect {
        PixelRect::of_cell(pos.x as int, pos.y as int)
    }
}

impl From<Selector> for PixelRect {
    /// The square under the selector, on or off the canvas.
    fn from(sel: Selector) -> (r: PixelRect) {
        PixelRect { x: sel.x as i64 * 32, y: sel.y as i64 * 32, w: 32, h: 32 }
    }
}

impl FromSpecImpl<Selector> for PixelRect {
    open spec fn obeys_from_spec() -> bool {
        true
    }

    open spec fn from_spec(sel: Selector) -> PixelRect {
        PixelRect::of_cell(sel.x as int, sel.y as int)
    }
}

/// How far the base of a marker facing `dir` reaches sideways from the
/// middle of its cell along the columns: half a cell when the marker faces
/// up or down, nothing otherwise.
pub open spec fn base_reach_x(dir: Direction) -> int {
    if dir.dy() != 0 {
        16
    } else {
        0
    }
}

/// How far the base of a marker facing `dir` reaches sideways from the
/// middle of its cell along the rows.
pub open spec fn base_reach_y(dir: Direction) -> int {
    if dir.dx() != 0 {
        16
    } else {
        0
    }
}

/// The tip of the marker of a character on `pos` facing `dir`: the middle of
/// the edge of the cell that the character faces.
pub open spec fn marker_tip(pos: GridPosition, dir: Direction) -> Pixel {
    Pixel {
        x: (pos.x * 32 + 16 + 16 * dir.dx()) as i64,
        y: (pos.y * 32 + 16 + 16 * dir.dy()) as i64,
    }
}

/// The first corner of the base of the marker: on the edge behind the
/// character, the corner nearer to the top left of the canvas.
pub open spec fn marker_base_low(pos: GridPosition, dir: Direction) -> Pixel {
    Pixel {
        x: (pos.x * 32 + 16 - 16 * dir.dx() - base_reach_x(dir)) as i64,
        y: (pos.y * 32 + 16 - 16 * dir.dy() - base_reach_y(dir)) as i64,
    }
}

/// The second corner of the base of the marker: on the edge behind the
/// character, the corner farther from the top left of the canvas.
pub open spec fn marker_base_high(pos: GridPosition, dir: Direction) -> Pixel {
    Pixel {
        x: (pos.x * 32 + 16 - 16 * dir.dx() + base_reach_x(dir)) as i64,
        y: (pos.y * 32 + 16 - 16 * dir.dy() + base_reach_y(dir)) as i64,
    }
}

impl Character {
    /// The corners of the triangle that marks the character on the canvas:
    /// the two corners of its base, which is the edge of the cell behind the
    /// character, and last its tip, in the middle of the edge the character
    /// faces.
    pub fn outline(&self) -> (corners: [Pixel; 3])
        ensures
            corners[0] == marker_base_low(self.pos, self.facing),
            corners[1] == marker_base_high(self.pos, self.facing),
            corners[2] == marker_tip(self.pos, self.facing),
            forall|k: int|
                0 <= k < 3 ==> PixelRect::of_cell(self.pos.x as int, self.pos.y as int).holds(
                    #[trigger] corners[k],
                ),
    {
        let px: i64 = self.pos.x as i64 * 32;
        let py: i64 = self.pos.y as i64 * 32;
        match self.facing {
            Direction::Up => [
                Pixel { x: px, y: py + 32 },
                Pixel { x: px + 32, y: py + 32 },
                Pixel { x: px + 16, y: py },
            ],
            Direction::Down => [
                Pixel { x: px, y: py },
                Pixel { x: px + 32, y: py },
                Pixel { x: px + 16, y: py + 32 },
            ],
            Direction::Left => [
                Pixel { x: px + 32, y: py },
                Pixel { x: px + 32, y: py + 32 },
                Pixel { x: px, y: py + 16 },
            ],
            Direction::Right => [
                Pixel { x: px, y: py },
                Pixel { x: px, y: py + 32 },
                Pixel { x: px + 32, y: py + 16 },
            ],
        }
    }
}

} // verus!
