use vstd::prelude::*;

verus! {

/// What a cell of the grid shows.
#[derive(Clone, Copy, Debug, PartialEq, Eq, Structural)]
pub enum Cell {
    Empty,
    Horizontal,
    Vertical,
    Turn,
}

/// Position of cell `(x, y)` in a column-major buffer whose columns hold
/// `rows` cells each.
pub open spec fn cell_index(rows: int, x: int, y: int) -> int {
    x * rows + y
}

pub proof fn lemma_cell_index_bounds(width: int, rows: int, x: int, y: int)
    requires
        0 <= x < width,
        0 <= y < rows,
    ensures
        0 <= cell_index(rows, x, y) < width * rows,
        0 <= x * rows <= cell_index(rows, x, y),
{
    assert(0 <= x * rows && x * rows + y < width * rows) by (nonlinear_arith)
        requires
            0 <= x < width,
            0 <= y < rows,
    ;
}

/// Distinct cells of a grid sit at distinct positions of its buffer.
pub proof fn lemma_cell_index_injective(rows: int, x1: int, y1: int, x2: int, y2: int)
    requires
        0 <= x1,
        0 <= x2,
        0 <= y1 < rows,
        0 <= y2 < rows,
        x1 != x2 || y1 != y2,
    ensures
        cell_index(rows, x1, y1) != cell_index(rows, x2, y2),
{
    if x1 < x2 {
        assert(x1 * rows + y1 < x2 * rows + y2) by (nonlinear_arith)
            requires
                x1 < x2,
                0 <= y1 < rows,
                0 <= y2,
        ;
    } else if x2 < x1 {
        assert(x2 * rows + y2 < x1 * rows + y1) by (nonlinear_arith)
            requires
                x2 < x1,
                0 <= y2 < rows,
                0 <= y1,
        ;
    }
}

proof fn lemma_product_fits(x: u16, rows: u16)
    ensures
        x as int * rows as int <= 65535 * 65535,
{
    assert(x as int * rows as int <= 65535 * 65535) by (nonlinear_arith)
        requires
            x <= 65535,
            rows <= 65535,
    ;
}

/// A `width` by `rows` buffer of cells, stored column by column.
pub struct Grid {
    pub width: u16,
    pub rows: u16,
    pub cells: Vec<Cell>,
}

impl Grid {
    pub open spec fn wf(&self) -> bool {
        self.cells@.len() == self.width as int * self.rows as int
    }

    /// The cell at column `x`, row `y`.
    pub open spec fn spec_cell(&self, x: int, y: int) -> Cell {
        self.cells@[cell_index(self.rows as int, x, y)]
    }

    pub open spec fn is_blank(&self) -> bool {
        forall|i: int| 0 <= i < self.cells@.len() ==> #[trigger] self.cells@[i] == Cell::Empty
    }

    /// A grid of the given size with every cell empty.
    pub fn new(width: u16, rows: u16) -> (r: Grid)
        ensures
            r.wf(),
            r.width == width,
            r.rows == rows,
            r.is_blank(),
    {
        proof {
            lemma_product_fits(width, rows);
        }
        let total: usize = (width as usize) * (rows as usize);
        let mut cells: Vec<Cell> = Vec::new();
        let mut i: usize = 0;
        while i < total
            invariant
                i <= total,
                cells@.len() == i,
                forall|j: int| 0 <= j < i ==> #[trigger] cells@[j] == Cell::Empty,
            decreases total - i,
        {
            cells.push(Cell::Empty);
            i = i + 1;
        }
        Grid { width, rows, cells }
    }

    /// The cell at column `x`, row `y`.
    pub fn get(&self, x: u16, y: u16) -> (r: Cell)
        requires
            self.wf(),
            x < self.width,
            y < self.rows,
        ensures
            r == self.spec_cell(x as int, y as int),
    {
        proof {
            lemma_cell_index_bounds(self.width as int, self.rows as int, x as int, y as int);
            lemma_product_fits(x, self.rows);
            lemma_product_fits(self.width, self.rows);
        }
        self.cells[(x as usize) * (self.rows as usize) + (y as usize)]
    }

    /// Overwrites the cell at column `x`, row `y`.
    pub fn set(&mut self, x: u16, y: u16, c: Cell)
        requires
            old(self).wf(),
            x < old(self).width,
            y < old(self).rows,
        ensures
            final(self).wf(),
            final(self).width == old(self).width,
            final(self).rows == old(self).rows,
            final(self).cells@ == old(self).cells@.update(
                cell_index(old(self).rows as int, x as int, y as int),
                c,
            ),
    {
        proof {
            lemma_cell_index_bounds(self.width as int, self.rows as int, x as int, y as int);
            lemma_product_fits(x, self.rows);
            lemma_product_fits(self.width, self.rows);
        }
        let k: usize = (x as usize) * (self.rows as usize) + (y as usize);
        self.cells.set(k, c);
    }
}

} // verus!
