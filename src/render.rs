use vstd::prelude::*;
use vstd::string::StringExecFns;
use crate::grid::{Cell, Grid};
use crate::simulation::Simulation;

verus! {

/// One character to write at a terminal position.
#[derive(Clone, Copy, Debug, PartialEq, Eq, Structural)]
pub struct Draw {
    pub col: u16,
    pub row: u16,
    pub glyph: char,
}

/// The character of a decimal digit.
pub open spec fn digit_char(d: nat) -> char {
    if d == 0 {
        '0'
    } else if d == 1 {
        '1'
    } else if d == 2 {
        '2'
    } else if d == 3 {
        '3'
    } else if d == 4 {
        '4'
    } else if d == 5 {
        '5'
    } else if d == 6 {
        '6'
    } else if d == 7 {
        '7'
    } else if d == 8 {
        '8'
    } else {
        '9'
    }
}

/// The decimal writing of `n`, without leading zeros.
pub open spec fn decimal(n: nat) -> Seq<char>
    decreases n,
{
    if n < 10 {
        seq![digit_char(n)]
    } else {
        decimal(n / 10).push(digit_char(n % 10))
    }
}

/// Relies on `u64`'s `Display` (through `ToString::to_string`): the value in
/// decimal, without sign or leading zeros.
#[verifier::external_body]
fn decimal_text(n: u64) -> (r: String)
    ensures
        r@ == decimal(n as nat),
{
    n.to_string()
}

/// The header line: the title, followed by the cycle count when asked for.
pub open spec fn spec_header(show_cycles: bool, cycles: u64) -> Seq<char> {
    if show_cycles {
        "Pipes | Cycle: "@ + decimal(cycles as nat)
    } else {
        "Pipes"@
    }
}

pub fn header_text(show_cycles: bool, cycles: u64) -> (r: String)
    ensures
        r@ == spec_header(show_cycles, cycles),
{
    if show_cycles {
        let mut s = String::from_str("Pipes | Cycle: ");
        let n = decimal_text(cycles);
        s.append(n.as_str());
        s
    } else {
        String::from_str("Pipes")
    }
}

/// The glyph of a cell; an empty cell is never drawn.
pub open spec fn spec_glyph(c: Cell) -> Option<char> {
    match c {
        Cell::Empty => None,
        Cell::Horizontal => Some('-'),
        Cell::Vertical => Some('|'),
        Cell::Turn => Some('+'),
    }
}

pub fn glyph(c: Cell) -> (r: Option<char>)
    ensures
        r == spec_glyph(c),
{
    match c {
        Cell::Empty => None,
        Cell::Horizontal => Some('-'),
        Cell::Vertical => Some('|'),
        Cell::Turn => Some('+'),
    }
}

/// Rows taken by the header and the rule above the grid.
pub const HEADER_ROWS: u16 = 2;

/// The rule under the header: an underscore in each of `width` columns of
/// row 1.
pub open spec fn spec_rule(width: nat) -> Seq<Draw> {
    Seq::new(width, |i: int| Draw { col: i as u16, row: 1, glyph: '_' })
}

/// Draws for the first `n` cells of a column-major buffer with `rows` cells
/// per column: one per non-empty cell, in buffer order, below the header.
pub open spec fn spec_cell_draws(cells: Seq<Cell>, rows: int, n: nat) -> Seq<Draw>
    decreases n,
{
    if n == 0 {
        seq![]
    } else {
        let k = n - 1;
        let prev = spec_cell_draws(cells, rows, k as nat);
        match spec_glyph(cells[k]) {
            Some(g) => prev.push(
                Draw { col: (k / rows) as u16, row: (k % rows + HEADER_ROWS) as u16, glyph: g },
            ),
            None => prev,
        }
    }
}

/// Everything drawn below the header for a grid: the rule, then its
/// non-empty cells.
pub open spec fn spec_frame(g: Grid) -> Seq<Draw> {
    spec_rule(g.width as nat) + spec_cell_draws(g.cells@, g.rows as int, g.cells@.len())
}

/// A grid with no marks draws nothing but the rule under the header.
pub proof fn lemma_blank_grid_draws_rule_only(g: Grid)
    requires
        g.is_blank(),
    ensures
        spec_frame(g) == spec_rule(g.width as nat),
{
    lemma_blank_cells_draw_nothing(g.cells@, g.rows as int, g.cells@.len());
    assert(spec_frame(g) =~= spec_rule(g.width as nat));
}

proof fn lemma_blank_cells_draw_nothing(cells: Seq<Cell>, rows: int, n: nat)
    requires
        n <= cells.len(),
        forall|i: int| 0 <= i < cells.len() ==> #[trigger] cells[i] == Cell::Empty,
    ensures
        spec_cell_draws(cells, rows, n) == Seq::<Draw>::empty(),
    decreases n,
{
    if n > 0 {
        lemma_blank_cells_draw_nothing(cells, rows, (n - 1) as nat);
        assert(cells[n - 1] == Cell::Empty);
    }
}

proof fn lemma_column_in_grid(k: int, width: int, rows: int)
    requires
        0 <= k < width * rows,
        rows > 0,
    ensures
        0 <= k / rows < width,
        0 <= k % rows < rows,
{
    assert(k / rows < width) by (nonlinear_arith)
        requires
            0 <= k < width * rows,
            rows > 0,
    ;
}

impl Simulation {
    /// The header line for the current cycle count.
    pub fn header(&self, show_cycles: bool) -> (r: String)
        ensures
            r@ == spec_header(show_cycles, self.cycles),
    {
        header_text(show_cycles, self.cycles)
    }

    /// What to draw below the header: the rule, then every non-empty cell at
    /// its column and its row shifted down past the header. Empty cells are
    /// left as they are on the screen.
    pub fn frame(&self) -> (r: Vec<Draw>)
        requires
            self.wf(),
        ensures
            r@ == spec_frame(self.grid),
    {
        let mut out: Vec<Draw> = Vec::new();
        let mut i: u16 = 0;
        while i < self.width
            invariant
                i <= self.width,
                out@ == spec_rule(i as nat),
            decreases self.width - i,
        {
            out.push(Draw { col: i, row: 1, glyph: '_' });
            i = i + 1;
            assert(out@ =~= spec_rule(i as nat));
        }
        let rows: usize = (self.height - 3) as usize;
        let n = self.grid.cells.len();
        let mut k: usize = 0;
        while k < n
            invariant
                self.wf(),
                rows == self.rows(),
                n == self.grid.cells@.len(),
                k <= n,
                out@ == spec_rule(self.width as nat) + spec_cell_draws(
                    self.grid.cells@,
                    rows as int,
                    k as nat,
                ),
            decreases n - k,
        {
            proof {
                lemma_column_in_grid(k as int, self.width as int, rows as int);
            }
            match glyph(self.grid.cells[k]) {
                Some(g) => {
                    let col = (k / rows) as u16;
                    let row = (k % rows) as u16 + HEADER_ROWS;
                    out.push(Draw { col, row, glyph: g });
                },
                None => {},
            }
            k = k + 1;
            assert(out@ =~= spec_rule(self.width as nat) + spec_cell_draws(
                self.grid.cells@,
                rows as int,
                k as nat,
            ));
        }
        out
    }
}

} // verus!
