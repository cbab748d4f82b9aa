//! Plain-text rendering of the board: one header line of column numbers,
//! then one line per row, each cell shown as its unit's symbol or a dot.

use vstd::prelude::*;

use crate::board::Board;
use crate::board::Cell;
use crate::board::Coord;

verus! {

/// Relies on String::push: appends exactly the one character.
#[verifier::external_body]
fn push_char(s: &mut String, c: char)
    ensures
        final(s)@ == old(s)@.push(c),
{
    s.push(c);
}

/// The digit character for a single-digit number.
pub open spec fn digit_char(d: u8) -> char
    recommends
        d < 10,
{
    (48 + d) as char
}

/// How one cell is drawn: its unit's symbol, or a dot when empty.
pub open spec fn cell_char(cell: Cell) -> char {
    match cell {
        Cell::Empty => '.',
        Cell::Unit(u) => u.symbol,
    }
}

/// The header line: column numbers aligned over the cells.
pub open spec fn header_text() -> Seq<char> {
    "  0 1 2 3 4 5 6 7"@
}

/// One board row drawn up to column `n`: the row number, then each cell
/// preceded by a space.
pub open spec fn row_chars(b: Board, y: u8, n: int) -> Seq<char>
    decreases n,
{
    if n <= 0 {
        seq![digit_char(y)]
    } else {
        row_chars(b, y, n - 1).push(' ').push(
            cell_char(b.spec_cell_at(Coord { x: (n - 1) as u8, y })),
        )
    }
}

/// The whole picture joined by newlines, up to row `n`: the header first,
/// then the rows in order.
pub open spec fn board_text_upto(b: Board, n: int) -> Seq<char>
    decreases n,
{
    if n <= 0 {
        header_text()
    } else {
        board_text_upto(b, n - 1).push('\n') + row_chars(b, (n - 1) as u8, 8)
    }
}

/// The complete plain-text picture of a board.
pub open spec fn board_text(b: Board) -> Seq<char> {
    board_text_upto(b, 8)
}

impl Board {
    /// Draws the board as lines of text: the header, then one line per
    /// row.
    pub fn to_ascii(&self) -> (lines: Vec<String>)
        requires
            self.wf(),
        ensures
            lines@.len() == 9,
            lines@[0]@ == header_text(),
            forall|r: int| 1 <= r < 9 ==> (#[trigger] lines@[r])@ == row_chars(*self, (r - 1) as u8, 8),
    {
        let mut lines: Vec<String> = Vec::new();
        lines.push(String::from_str("  0 1 2 3 4 5 6 7"));
        let mut y: u8 = 0;
        while y < 8
            invariant
                self.wf(),
                y <= 8,
                lines@.len() == y as int + 1,
                lines@[0]@ == header_text(),
                forall|r: int|
                    1 <= r <= y ==> (#[trigger] lines@[r])@ == row_chars(*self, (r - 1) as u8, 8),
            decreases 8 - y,
        {
            let mut line = String::new();
            push_char(&mut line, (48 + y) as char);
            let mut x: u8 = 0;
            while x < 8
                invariant
                    self.wf(),
                    y < 8,
                    x <= 8,
                    line@ == row_chars(*self, y, x as int),
                decreases 8 - x,
            {
                push_char(&mut line, ' ');
                let sym: char = match self.get(&Coord::new(x, y)) {
                    Some(cell) => match cell {
                        Cell::Unit(u) => u.symbol,
                        Cell::Empty => '.',
                    },
                    None => '.',
                };
                push_char(&mut line, sym);
                x = x + 1;
            }
            lines.push(line);
            y = y + 1;
        }
        lines
    }
}

/// Draws board snapshots for display collaborators that want plain text.
pub struct BoardRenderer;

impl BoardRenderer {
    /// The board as one string: the header and the eight rows, joined by
    /// newlines.
    pub fn render_ascii(board: &Board) -> (r: String)
        requires
            board.wf(),
        ensures
            r@ == board_text(*board),
    {
        let lines = board.to_ascii();
        let mut out = String::new();
        out.append(lines[0].as_str());
        let mut i: usize = 1;
        while i < 9
            invariant
                lines@.len() == 9,
                lines@[0]@ == header_text(),
                forall|r: int|
                    1 <= r < 9 ==> (#[trigger] lines@[r])@ == row_chars(*board, (r - 1) as u8, 8),
                1 <= i <= 9,
                out@ == board_text_upto(*board, i as int - 1),
            decreases 9 - i,
        {
            push_char(&mut out, '\n');
            out.append(lines[i].as_str());
            i = i + 1;
        }
        out
    }
}

} // verus!
