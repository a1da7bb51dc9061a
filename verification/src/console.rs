//! A skirmish for the text console: a small board of eight by eight cells
//! on which a character is part of the terrain, moved by typed commands.

use vstd::prelude::*;
use crate::character::Status;

verus! {

/// The last column of the board.
pub const MAX_X: u32 = 7;

/// The last row of the board.
pub const MAX_Y: u32 = 7;

/// Number of cells of the board.
pub const CELLS: usize = 64;

/// What a typed command asks for. `West` increases the column and `East`
/// decreases it; `South` increases the row and `North` decreases it.
#[derive(Clone, Copy, PartialEq, Eq, Debug, Structural)]
pub enum Direction {
    North,
    South,
    East,
    West,
    Stay,
}

/// What a cell holds.
#[derive(Clone, Copy, PartialEq, Eq, Debug, Structural)]
pub enum CellState {
    Empty,
    Wall,
    Char,
}

/// One cell of the board. `id` tells which character stands on a cell whose
/// state is `Char`.
#[derive(Clone, Copy, PartialEq, Eq, Debug, Structural)]
pub struct Cell {
    pub state: CellState,
    pub id: usize,
}

/// A character of the skirmish.
#[derive(Clone, Copy, PartialEq, Eq, Debug, Structural)]
pub struct Character {
    pub id: usize,
    pub x: u32,
    pub y: u32,
    pub mobi: u8,
    pub facing: Direction,
    pub hp: u8,
    pub state: Status,
}

/// The direction that the command `mov` asks for. Only its first character
/// counts: `d` is north, `s` south, `r` west and `t` east. Anything else,
/// and the empty command, is `Stay`.
pub open spec fn parsed(mov: Seq<char>) -> Direction {
    if mov.len() == 0 {
        Direction::Stay
    } else if mov[0] == 'd' {
        Direction::North
    } else if mov[0] == 's' {
        Direction::South
    } else if mov[0] == 'r' {
        Direction::West
    } else if mov[0] == 't' {
        Direction::East
    } else {
        Direction::Stay
    }
}

/// Reads a typed command.
pub fn parse(mov: &str) -> (dir: Direction)
    ensures
        dir == parsed(mov@),
{
    if mov.unicode_len() == 0 {
        return Direction::Stay;
    }
    match mov.get_char(0) {
        'd' => Direction::North,
        's' => Direction::South,
        'r' => Direction::West,
        't' => Direction::East,
        _ => Direction::Stay,
    }
}

impl Direction {
    /// Change of the column when moving this way.
    pub open spec fn dx(self) -> int {
        match self {
            Direction::West => 1,
            Direction::East => -1,
            _ => 0,
        }
    }

    /// Change of the row when moving this way.
    pub open spec fn dy(self) -> int {
        match self {
            Direction::South => 1,
            Direction::North => -1,
            _ => 0,
        }
    }
}

impl Cell {
    /// The three characters that picture the cell: `0` for an empty cell, `X`
    /// for a wall and `@` for a character, each between two blanks.
    pub open spec fn glyph(self) -> Seq<char> {
        match self.state {
            CellState::Empty => seq![' ', '0', ' '],
            CellState::Wall => seq![' ', 'X', ' '],
            CellState::Char => seq![' ', '@', ' '],
        }
    }

    /// Whether the cell is free to step on: neither a wall nor taken by a
    /// character.
    pub fn is_empty(&self) -> (free: bool)
        ensures
            free == (self.state == CellState::Empty),
    {
        match self.state {
            CellState::Empty => true,
            _ => false,
        }
    }

    /// The picture of the cell.
    pub fn disp(&self) -> (s: String)
        ensures
            s@ == self.glyph(),
    {
        proof {
            reveal_strlit(" 0 ");
            reveal_strlit(" X ");
            reveal_strlit(" @ ");
        }
        let s = match self.state {
            CellState::Empty => String::from_str(" 0 "),
            CellState::Wall => String::from_str(" X "),
            CellState::Char => String::from_str(" @ "),
        };
        assert(s@ =~= self.glyph());
        s
    }
}

/// The picture of the first `n` cells of row `y`.
pub open spec fn row_text(cells: Seq<Cell>, y: int, n: int) -> Seq<char>
    decreases n,
{
    if n <= 0 {
        Seq::empty()
    } else {
        row_text(cells, y, n - 1) + cells[(n - 1) + y * 8].glyph()
    }
}

/// The picture of the first `m` rows, each closed by a line feed.
pub open spec fn rows_text(cells: Seq<Cell>, m: int) -> Seq<char>
    decreases m,
{
    if m <= 0 {
        Seq::empty()
    } else {
        rows_text(cells, m - 1) + row_text(cells, m - 1, 8) + seq!['\n']
    }
}

/// The symbol that pictures a cell.
pub open spec fn symbol(cell: Cell) -> char {
    cell.glyph()[1]
}

/// Whether `row`, the picture of one row, shows the cell in column `x` of
/// row `y` in its place: its symbol between two blanks, three characters a
/// cell.
pub open spec fn row_shows(row: Seq<char>, cells: Seq<Cell>, x: int, y: int) -> bool {
    &&& row[3 * x] == ' '
    &&& row[3 * x + 1] == symbol(cells[x + y * 8])
    &&& row[3 * x + 2] == ' '
}

/// Whether `text`, the picture of a board, shows the cell in column `x` of
/// row `y` in its place, in lines of twenty-five characters.
pub open spec fn board_shows(text: Seq<char>, cells: Seq<Cell>, x: int, y: int) -> bool {
    &&& text[25 * y + 3 * x] == ' '
    &&& text[25 * y + 3 * x + 1] == symbol(cells[x + y * 8])
    &&& text[25 * y + 3 * x + 2] == ' '
}

/// Whether line `y` of `text` ends in a line feed.
pub open spec fn line_closed(text: Seq<char>, y: int) -> bool {
    text[25 * y + 24] == '\n'
}

/// The picture of a row takes three characters a cell and shows every cell
/// in its place.
pub proof fn lemma_row_text(cells: Seq<Cell>, y: int, n: int)
    requires
        0 <= n,
    ensures
        row_text(cells, y, n).len() == 3 * n,
        forall|x: int| 0 <= x < n ==> #[trigger] row_shows(row_text(cells, y, n), cells, x, y),
    decreases n,
{
    if n > 0 {
        lemma_row_text(cells, y, n - 1);
        let front = row_text(cells, y, n - 1);
        let glyph = cells[(n - 1) + y * 8].glyph();
        let whole = row_text(cells, y, n);
        assert(whole == front + glyph);
        assert(glyph.len() == 3 && glyph[0] == ' ' && glyph[2] == ' ');
        assert forall|x: int| 0 <= x < n implies #[trigger] row_shows(whole, cells, x, y) by {
            if x < n - 1 {
                assert(row_shows(front, cells, x, y));
                assert(whole[3 * x] == front[3 * x]);
                assert(whole[3 * x + 1] == front[3 * x + 1]);
                assert(whole[3 * x + 2] == front[3 * x + 2]);
            } else {
                assert(whole[3 * x] == glyph[0]);
                assert(whole[3 * x + 1] == glyph[1]);
                assert(whole[3 * x + 2] == glyph[2]);
            }
        }
    }
}

/// The picture of the board is laid out in lines of twenty-five
/// characters: every cell is shown in its place, and every line ends in a
/// line feed.
pub proof fn lemma_rows_text(cells: Seq<Cell>, m: int)
    requires
        0 <= m,
    ensures
        rows_text(cells, m).len() == 25 * m,
        forall|x: int, y: int|
            0 <= y < m && 0 <= x < 8 ==> #[trigger] board_shows(rows_text(cells, m), cells, x, y),
        forall|y: int| 0 <= y < m ==> #[trigger] line_closed(rows_text(cells, m), y),
    decreases m,
{
    if m > 0 {
        lemma_rows_text(cells, m - 1);
        lemma_row_text(cells, m - 1, 8);
        let front = rows_text(cells, m - 1);
        let row = row_text(cells, m - 1, 8);
        let all = rows_text(cells, m);
        assert(all == front + row + seq!['\n']);
        assert(all.len() == 25 * m);
        assert forall|x: int, y: int| 0 <= y < m && 0 <= x < 8 implies #[trigger] board_shows(
            all,
            cells,
            x,
            y,
        ) by {
            if y < m - 1 {
                assert(board_shows(front, cells, x, y));
                assert(all[25 * y + 3 * x] == front[25 * y + 3 * x]);
                assert(all[25 * y + 3 * x + 1] == front[25 * y + 3 * x + 1]);
                assert(all[25 * y + 3 * x + 2] == front[25 * y + 3 * x + 2]);
            } else {
                assert(row_shows(row, cells, x, y));
                assert(all[25 * y + 3 * x] == row[3 * x]);
                assert(all[25 * y + 3 * x + 1] == row[3 * x + 1]);
                assert(all[25 * y + 3 * x + 2] == row[3 * x + 2]);
            }
        }
        assert forall|y: int| 0 <= y < m implies #[trigger] line_closed(all, y) by {
            if y < m - 1 {
                assert(line_closed(front, y));
                assert(all[25 * y + 24] == front[25 * y + 24]);
            }
        }
    }
}

/// The picture of the board: eight lines of eight cells, each cell shown by
/// its symbol between two blanks, each line closed by a line feed.
pub fn display_map(map: &[Cell; 64]) -> (text: String)
    ensures
        text@ == rows_text(map@, 8),
        text@.len() == 200,
        forall|x: int, y: int|
            0 <= y < 8 && 0 <= x < 8 ==> #[trigger] board_shows(text@, map@, x, y),
        forall|y: int| 0 <= y < 8 ==> #[trigger] line_closed(text@, y),
{
    let mut text = String::new();
    let mut y: usize = 0;
    while y < 8
        invariant
            0 <= y <= 8,
            text@ == rows_text(map@, y as int),
        decreases 8 - y,
    {
        let ghost before = text@;
        let mut x: usize = 0;
        while x < 8
            invariant
                0 <= x <= 8,
                0 <= y < 8,
                text@ == before + row_text(map@, y as int, x as int),
            decreases 8 - x,
        {
            let glyph = map[x + y * 8].disp();
            text.append(glyph.as_str());
            x += 1;
            assert(text@ =~= before + row_text(map@, y as int, x as int));
        }
        proof {
            reveal_strlit("\n");
        }
        text.append("\n");
        y += 1;
        assert(text@ =~= rows_text(map@, y as int));
    }
    proof {
        lemma_rows_text(map@, 8);
    }
    text
}

impl Character {
    /// Whether the character stands on the board.
    pub open spec fn on_board(self) -> bool {
        self.x <= MAX_X && self.y <= MAX_Y
    }

    /// Index of the cell the character stands on.
    pub open spec fn cell(self) -> int {
        self.x + self.y * 8
    }

    /// Index of the cell one step away in direction `dir`.
    pub open spec fn target(self, dir: Direction) -> int {
        (self.x + dir.dx()) + (self.y + dir.dy()) * 8
    }

    /// Whether the character can move one step in direction `dir` on
    /// `cells`: it stands on the board, the step stays on the board, and the
    /// target cell is empty. `Stay` is no move.
    pub open spec fn can_move(self, cells: Seq<Cell>, dir: Direction) -> bool {
        &&& self.on_board()
        &&& dir != Direction::Stay
        &&& 0 <= self.x + dir.dx() <= MAX_X
        &&& 0 <= self.y + dir.dy() <= MAX_Y
        &&& cells[self.target(dir)].state == CellState::Empty
    }

    /// The character one step further in direction `dir`.
    pub open spec fn moved(self, dir: Direction) -> Character {
        Character { x: (self.x + dir.dx()) as u32, y: (self.y + dir.dy()) as u32, ..self }
    }

    /// The cells after the character has moved one step in direction `dir`:
    /// the cell it leaves becomes empty and the cell it enters holds the
    /// character.
    pub open spec fn cells_after(self, cells: Seq<Cell>, dir: Direction) -> Seq<Cell> {
        cells.update(self.cell(), Cell { state: CellState::Empty, id: cells[self.cell()].id }).update(
            self.target(dir),
            Cell { state: CellState::Char, id: self.id },
        )
    }

    /// Carries out the typed command `mov` on the board `map`.
    ///
    /// If the command names a direction in which the character can move,
    /// the character moves one cell, the board follows, and the direction
    /// is returned. Otherwise nothing changes and `None` is returned.
    pub fn mv(&mut self, map: &mut [Cell; 64], mov: &str) -> (gone: Option<Direction>)
        ensures
            old(self).can_move(old(map)@, parsed(mov@)) ==> {
                &&& gone == Some(parsed(mov@))
                &&& *final(self) == old(self).moved(parsed(mov@))
                &&& final(map)@ == old(self).cells_after(old(map)@, parsed(mov@))
                &&& final(self).on_board()
            },
            !old(self).can_move(old(map)@, parsed(mov@)) ==> {
                &&& gone is None
                &&& *final(self) == *old(self)
                &&& final(map)@ == old(map)@
            },
    {
        let dir = parse(mov);
        if self.x > MAX_X || self.y > MAX_Y {
            return None;
        }
        let here: usize = (self.x + self.y * 8) as usize;
        match dir {
            Direction::South => {
                if self.y < MAX_Y && map[here + 8].is_empty() {
                    map[here].state = CellState::Empty;
                    map[here + 8].state = CellState::Char;
                    map[here + 8].id = self.id;
                    self.y = self.y + 1;
                    return Some(dir);
                }
            },
            Direction::North => {
                if self.y > 0 && map[here - 8].is_empty() {
                    map[here].state = CellState::Empty;
                    map[here - 8].state = CellState::Char;
                    map[here - 8].id = self.id;
                    self.y = self.y - 1;
                    return Some(dir);
                }
            },
            Direction::West => {
                if self.x < MAX_X && map[here + 1].is_empty() {
                    map[here].state = CellState::Empty;
                    map[here + 1].state = CellState::Char;
                    map[here + 1].id = self.id;
                    self.x = self.x + 1;
                    return Some(dir);
                }
            },
            Direction::East => {
                if self.x > 0 && map[here - 1].is_empty() {
                    map[here].state = CellState::Empty;
                    map[here - 1].state = CellState::Char;
                    map[here - 1].id = self.id;
                    self.x = self.x - 1;
                    return Some(dir);
                }
            },
            Direction::Stay => {},
        }
        None
    }
}

} // verus!
