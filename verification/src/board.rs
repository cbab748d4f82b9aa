//! Board model: coordinates, units, cells, the 8x8 board, game snapshots
//! and the actions a player can submit.

use vstd::prelude::*;

verus! {

/// A position on the fixed 8x8 board. Plain value, no identity.
#[derive(Clone, Copy, PartialEq, Eq, Structural, Debug)]
pub struct Coord {
    pub x: u8,
    pub y: u8,
}

impl Coord {
    /// Both components lie inside the fixed board dimension.
    pub open spec fn in_bounds(self) -> bool {
        self.x < 8 && self.y < 8
    }

    pub fn new(x: u8, y: u8) -> (c: Coord)
        ensures
            c.x == x,
            c.y == y,
    {
        Coord { x, y }
    }
}

/// A unit on the board: owned by exactly one player, shown as one symbol.
#[derive(Clone, PartialEq, Eq, Debug)]
pub struct Unit {
    pub owner: String,
    pub symbol: char,
}

/// One board cell: empty, or occupied by exactly one unit.
#[derive(Clone, PartialEq, Eq, Debug)]
pub enum Cell {
    Empty,
    Unit(Unit),
}

impl Cell {
    /// The unit occupying this cell, if any.
    pub fn get_unit(&self) -> (r: Option<&Unit>)
        ensures
            r is Some <==> self is Unit,
            *self matches Cell::Unit(u) ==> (r matches Some(ru) && *ru == u),
    {
        match self {
            Cell::Unit(u) => Some(u),
            Cell::Empty => None,
        }
    }
}

/// The 8x8 board: a total mapping from every in-bounds coordinate to a cell,
/// stored row by row.
#[derive(Clone, PartialEq, Eq, Debug)]
pub struct Board {
    pub cells: Vec<Cell>,
}

impl Board {
    /// The mapping is total: one cell per coordinate of the 8x8 grid.
    pub open spec fn wf(self) -> bool {
        self.cells@.len() == 64
    }

    /// The cell stored for an in-bounds coordinate.
    pub open spec fn spec_cell_at(self, c: Coord) -> Cell
        recommends
            self.wf(),
            c.in_bounds(),
    {
        self.cells@[c.y as int * 8 + c.x as int]
    }

    /// A board with every cell empty.
    pub fn empty() -> (r: Board)
        ensures
            r.wf(),
            forall|c: Coord| c.in_bounds() ==> r.spec_cell_at(c) is Empty,
    {
        let mut cells: Vec<Cell> = Vec::new();
        let mut i: usize = 0;
        while i < 64
            invariant
                i <= 64,
                cells@.len() == i,
                forall|j: int| 0 <= j < i ==> cells@[j] is Empty,
            decreases 64 - i,
        {
            cells.push(Cell::Empty);
            i = i + 1;
        }
        Board { cells }
    }

    /// Builds a board from a row-major list of cells; rejects any list that
    /// does not cover the grid exactly.
    pub fn from_cells(cells: Vec<Cell>) -> (r: Option<Board>)
        ensures
            r is Some <==> cells@.len() == 64,
            r matches Some(b) ==> b.cells@ == cells@,
            r matches Some(b) ==> b.wf(),
    {
        if cells.len() == 64 {
            Some(Board { cells })
        } else {
            None
        }
    }

    /// The cell at a coordinate, or nothing when the coordinate is out of
    /// bounds.
    pub fn get(&self, c: &Coord) -> (r: Option<&Cell>)
        requires
            self.wf(),
        ensures
            c.in_bounds() ==> (r matches Some(cell) && *cell == self.spec_cell_at(*c)),
            !c.in_bounds() ==> r is None,
    {
        if c.x < 8 && c.y < 8 {
            let idx: usize = (c.y as usize) * 8 + (c.x as usize);
            Some(&self.cells[idx])
        } else {
            None
        }
    }

    /// Replaces the cell at an in-bounds coordinate, leaving every other
    /// cell as it was.
    pub fn set_cell(&mut self, c: Coord, cell: Cell)
        requires
            old(self).wf(),
            c.in_bounds(),
        ensures
            final(self).wf(),
            final(self).spec_cell_at(c) == cell,
            forall|d: Coord|
                d.in_bounds() && d != c ==> final(self).spec_cell_at(d) == old(self).spec_cell_at(d),
    {
        let idx: usize = (c.y as usize) * 8 + (c.x as usize);
        self.cells[idx] = cell;
        assert forall|d: Coord| d.in_bounds() && d != c implies final(self).spec_cell_at(d)
            == old(self).spec_cell_at(d) by {
            assert(d.y as int * 8 + d.x as int != c.y as int * 8 + c.x as int);
        }
    }
}

/// What the starting board holds at one square: the two players' units
/// face each other on the first and last rows, four apiece, everything
/// else empty.
pub open spec fn initial_cell_ok(cell: Cell, x: int, y: int) -> bool {
    if (y == 0 || y == 7) && 2 <= x <= 5 {
        cell matches Cell::Unit(u) && u.symbol == (if y == 0 {
            'O'
        } else {
            'X'
        }) && u.owner@ == (if y == 0 {
            "player2"@
        } else {
            "player1"@
        })
    } else {
        cell is Empty
    }
}

impl Board {
    /// The starting position: the first player's units ('X') on the last
    /// row, the second player's ('O') on the first, four each.
    pub fn with_initial_setup() -> (r: Board)
        ensures
            r.wf(),
            forall|c: Coord|
                c.in_bounds() ==> initial_cell_ok(r.spec_cell_at(c), c.x as int, c.y as int),
    {
        let mut cells: Vec<Cell> = Vec::new();
        let mut y: u8 = 0;
        while y < 8
            invariant
                y <= 8,
                cells@.len() == y as int * 8,
                forall|c: Coord|
                    #[trigger] c.in_bounds() && (c.y as int) < y as int ==> initial_cell_ok(
                        cells@[c.y as int * 8 + c.x as int],
                        c.x as int,
                        c.y as int,
                    ),
            decreases 8 - y,
        {
            let mut x: u8 = 0;
            while x < 8
                invariant
                    x <= 8,
                    y < 8,
                    cells@.len() == y as int * 8 + x as int,
                    forall|c: Coord|
                        #[trigger] c.in_bounds() && (c.y as int) < y as int ==> initial_cell_ok(
                            cells@[c.y as int * 8 + c.x as int],
                            c.x as int,
                            c.y as int,
                        ),
                    forall|c: Coord|
                        #[trigger] c.in_bounds() && c.y == y && (c.x as int) < x as int
                            ==> initial_cell_ok(
                            cells@[c.y as int * 8 + c.x as int],
                            c.x as int,
                            c.y as int,
                        ),
                decreases 8 - x,
            {
                let cell = if (y == 0 || y == 7) && 2 <= x && x <= 5 {
                    if y == 0 {
                        Cell::Unit(Unit { owner: String::from_str("player2"), symbol: 'O' })
                    } else {
                        Cell::Unit(Unit { owner: String::from_str("player1"), symbol: 'X' })
                    }
                } else {
                    Cell::Empty
                };
                cells.push(cell);
                x = x + 1;
            }
            y = y + 1;
        }
        Board { cells }
    }
}

/// The phase a match is in.
#[derive(Clone, Copy, PartialEq, Eq, Structural, Debug)]
pub enum Phase {
    Setup,
    Playing,
    Ended,
}

/// The authoritative snapshot received from the server: the board, whose
/// turn it is, a turn counter and the match phase. Replaced wholesale on
/// every reconciliation, never patched in place.
#[derive(Clone, PartialEq, Eq, Debug)]
pub struct GameState {
    pub board: Board,
    pub turn: String,
    pub turn_count: u64,
    pub phase: Phase,
}

impl GameState {
    pub open spec fn wf(self) -> bool {
        self.board.wf()
    }
}

/// An action submitted to the server on a player's behalf.
#[derive(Clone, Copy, PartialEq, Eq, Structural, Debug)]
pub enum Action {
    Move { from: Coord, to: Coord },
    Attack { from: Coord, to: Coord },
    EndTurn,
}

} // verus!
