use vstd::prelude::*;
use crate::direction::{Direction, Steer, random_steer};
use crate::grid::{Cell, Grid, cell_index, lemma_cell_index_bounds, lemma_cell_index_injective};
use crate::pipe::Pipe;

verus! {

/// The trail glyph a pipe leaves on the cell it enters.
pub open spec fn spec_trail(d: Direction) -> Cell {
    if d.spec_is_horizontal() {
        Cell::Horizontal
    } else {
        Cell::Vertical
    }
}

pub fn trail(d: Direction) -> (r: Cell)
    ensures
        r == spec_trail(d),
{
    if d.is_horizontal() {
        Cell::Horizontal
    } else {
        Cell::Vertical
    }
}

/// Where a pipe stands after one tick under `s`: it takes the new heading,
/// then moves one cell along it.
pub open spec fn spec_step(p: Pipe, s: Steer, width: u16, rows: u16) -> Pipe {
    Pipe { direction: p.direction.spec_steered(s), ..p }.spec_advanced(width, rows)
}

/// The cells after one tick of pipe `p` under `s`: if its heading changed, the
/// cell it leaves becomes a turn; then the cell it enters takes its trail.
pub open spec fn spec_mark(cells: Seq<Cell>, p: Pipe, s: Steer, width: u16, rows: u16) -> Seq<
    Cell,
> {
    let d = p.direction.spec_steered(s);
    let turned = if d != p.direction {
        cells.update(cell_index(rows as int, p.x_pos as int, p.y_pos as int), Cell::Turn)
    } else {
        cells
    };
    let q = spec_step(p, s, width, rows);
    turned.update(cell_index(rows as int, q.x_pos as int, q.y_pos as int), spec_trail(d))
}

/// Pipes and cells after the first `n` pipes have each taken one step, in
/// order, pipe `i` steered by `steers[i]`.
pub open spec fn spec_steps(
    pipes: Seq<Pipe>,
    cells: Seq<Cell>,
    steers: Seq<Steer>,
    width: u16,
    rows: u16,
    n: nat,
) -> (Seq<Pipe>, Seq<Cell>)
    decreases n,
{
    if n == 0 {
        (pipes, cells)
    } else {
        let prev = spec_steps(pipes, cells, steers, width, rows, (n - 1) as nat);
        let p = prev.0[n - 1];
        (
            prev.0.update(n - 1, spec_step(p, steers[n - 1], width, rows)),
            spec_mark(prev.1, p, steers[n - 1], width, rows),
        )
    }
}

/// The pipe set of a fresh run: `count` pipes at the middle column of the top
/// row, heading down.
pub open spec fn spec_initial_pipes(width: u16, count: nat) -> Seq<Pipe> {
    Seq::new(count, |i: int| Pipe { x_pos: (width / 2) as u16, y_pos: 0, direction: Direction::Down })
}

/// The whole state of one animation: its pipes, the grid of trails, and the
/// number of ticks since the last reset.
pub struct Simulation {
    pub width: u16,
    pub height: u16,
    pub pipe_count: usize,
    pub reset_cycles: u64,
    pub pipes: Vec<Pipe>,
    pub grid: Grid,
    pub cycles: u64,
}

impl Simulation {
    /// Rows of the grid: the terminal's height less three rows of chrome.
    pub open spec fn rows(&self) -> u16 {
        (self.height - 3) as u16
    }

    pub open spec fn wf(&self) -> bool {
        &&& self.width >= 1
        &&& self.height >= 4
        &&& self.grid.wf()
        &&& self.grid.width == self.width
        &&& self.grid.rows == self.rows()
        &&& self.pipes@.len() == self.pipe_count
        &&& forall|i: int|
            0 <= i < self.pipes@.len() ==> #[trigger] self.pipes@[i].in_bounds(
                self.width,
                self.rows(),
            )
        &&& self.cycles <= self.reset_cycles
    }

    /// The state right after a start or a reset.
    pub open spec fn is_fresh(&self) -> bool {
        &&& self.pipes@ == spec_initial_pipes(self.width, self.pipe_count as nat)
        &&& self.grid.is_blank()
        &&& self.cycles == 0
    }

    /// A fresh simulation sized for a `width` by `height` terminal.
    pub fn new(width: u16, height: u16, pipe_count: usize, reset_cycles: u64) -> (r: Simulation)
        requires
            width >= 1,
            height >= 4,
        ensures
            r.wf(),
            r.is_fresh(),
            r.width == width,
            r.height == height,
            r.pipe_count == pipe_count,
            r.reset_cycles == reset_cycles,
    {
        let grid = Grid::new(width, height - 3);
        let pipes = initial_pipes(width, height, pipe_count);
        Simulation { width, height, pipe_count, reset_cycles, pipes, grid, cycles: 0 }
    }

    /// Puts the simulation back in its fresh state, keeping its settings.
    pub fn reset(&mut self)
        requires
            old(self).wf(),
        ensures
            final(self).wf(),
            final(self).is_fresh(),
            final(self).width == old(self).width,
            final(self).height == old(self).height,
            final(self).pipe_count == old(self).pipe_count,
            final(self).reset_cycles == old(self).reset_cycles,
    {
        self.grid = Grid::new(self.width, self.height - 3);
        self.pipes = initial_pipes(self.width, self.height, self.pipe_count);
        self.cycles = 0;
    }

    /// One step of pipe `i` under `s`: turn, mark a turn on the cell left
    /// behind if the heading changed, move with wrap-around, and mark the
    /// cell entered with the trail of the new heading.
    pub fn step_pipe(&mut self, i: usize, s: Steer)
        requires
            old(self).wf(),
            i < old(self).pipes@.len(),
        ensures
            final(self).wf(),
            final(self).width == old(self).width,
            final(self).height == old(self).height,
            final(self).pipe_count == old(self).pipe_count,
            final(self).reset_cycles == old(self).reset_cycles,
            final(self).cycles == old(self).cycles,
            final(self).pipes@ == old(self).pipes@.update(
                i as int,
                spec_step(old(self).pipes@[i as int], s, old(self).width, old(self).rows()),
            ),
            final(self).grid.cells@ == spec_mark(
                old(self).grid.cells@,
                old(self).pipes@[i as int],
                s,
                old(self).width,
                old(self).rows(),
            ),
    {
        let rows: u16 = self.height - 3;
        assert(self.pipes@[i as int].in_bounds(self.width, self.rows()));
        let mut p = self.pipes[i];
        let last = p.direction;
        p.direction = last.steered(s);
        if p.direction != last {
            self.grid.set(p.x_pos, p.y_pos, Cell::Turn);
        }
        p.advance(self.width, rows);
        self.grid.set(p.x_pos, p.y_pos, trail(p.direction));
        self.pipes.set(i, p);
        assert(forall|j: int|
            0 <= j < self.pipes@.len() ==> #[trigger] self.pipes@[j].in_bounds(
                self.width,
                self.rows(),
            ));
    }

    /// One tick with the steering given: every pipe steps in order, pipe `i`
    /// under `steers[i]`; then the cycle count goes up, and once it exceeds
    /// `reset_cycles` the simulation resets. Returns whether it reset.
    pub fn tick_with(&mut self, steers: &Vec<Steer>) -> (reset: bool)
        requires
            old(self).wf(),
            steers@.len() == old(self).pipes@.len(),
        ensures
            final(self).wf(),
            final(self).width == old(self).width,
            final(self).height == old(self).height,
            final(self).pipe_count == old(self).pipe_count,
            final(self).reset_cycles == old(self).reset_cycles,
            reset == (old(self).cycles + 1 > old(self).reset_cycles),
            reset ==> final(self).is_fresh(),
            !reset ==> {
                &&& final(self).cycles == old(self).cycles + 1
                &&& (final(self).pipes@, final(self).grid.cells@) == spec_steps(
                    old(self).pipes@,
                    old(self).grid.cells@,
                    steers@,
                    old(self).width,
                    old(self).rows(),
                    old(self).pipes@.len(),
                )
            },
    {
        let ghost start = *self;
        let n = self.pipes.len();
        let mut i: usize = 0;
        while i < n
            invariant
                self.wf(),
                i <= n,
                n == self.pipes@.len(),
                steers@.len() == n,
                self.width == start.width,
                self.height == start.height,
                self.pipe_count == start.pipe_count,
                self.reset_cycles == start.reset_cycles,
                self.cycles == start.cycles,
                (self.pipes@, self.grid.cells@) == spec_steps(
                    start.pipes@,
                    start.grid.cells@,
                    steers@,
                    start.width,
                    start.rows(),
                    i as nat,
                ),
            decreases n - i,
        {
            self.step_pipe(i, steers[i]);
            i = i + 1;
        }
        if self.cycles >= self.reset_cycles {
            self.reset();
            true
        } else {
            self.cycles = self.cycles + 1;
            false
        }
    }

    /// One tick with steering drawn from the process-wide random source.
    /// Whatever comes up, the pipes stay on the grid and the cycle count and
    /// reset go as in `tick_with`.
    pub fn tick(&mut self) -> (reset: bool)
        requires
            old(self).wf(),
        ensures
            final(self).wf(),
            final(self).width == old(self).width,
            final(self).height == old(self).height,
            final(self).pipe_count == old(self).pipe_count,
            final(self).reset_cycles == old(self).reset_cycles,
            reset == (old(self).cycles + 1 > old(self).reset_cycles),
            reset ==> final(self).is_fresh(),
            !reset ==> final(self).cycles == old(self).cycles + 1,
            !reset ==> exists|steers: Seq<Steer>|
                steers.len() == old(self).pipes@.len() && (final(self).pipes@, final(self).grid.cells@)
                    == #[trigger] spec_steps(
                    old(self).pipes@,
                    old(self).grid.cells@,
                    steers,
                    old(self).width,
                    old(self).rows(),
                    old(self).pipes@.len(),
                ),
    {
        let n = self.pipes.len();
        let mut steers: Vec<Steer> = Vec::new();
        let mut i: usize = 0;
        while i < n
            invariant
                i <= n,
                steers@.len() == i,
            decreases n - i,
        {
            steers.push(random_steer());
            i = i + 1;
        }
        self.tick_with(&steers)
    }
}

/// A turn is marked on the tick the heading changes, on the cell the pipe
/// stood on before moving (unless the move leads back onto that same cell),
/// while the cell it enters shows the trail of its new heading, never a turn.
/// A tick that keeps the heading marks no turn: only the entered cell changes.
pub proof fn lemma_turn_marks_cell_left_behind(
    cells: Seq<Cell>,
    p: Pipe,
    s: Steer,
    width: u16,
    rows: u16,
)
    requires
        p.in_bounds(width, rows),
        cells.len() == width as int * rows as int,
    ensures
        ({
            let d = p.direction.spec_steered(s);
            let q = spec_step(p, s, width, rows);
            let marked = spec_mark(cells, p, s, width, rows);
            let here = cell_index(rows as int, p.x_pos as int, p.y_pos as int);
            let there = cell_index(rows as int, q.x_pos as int, q.y_pos as int);
            &&& marked.len() == cells.len()
            &&& marked[there] == spec_trail(d)
            &&& marked[there] != Cell::Turn
            &&& (d != p.direction && (q.x_pos != p.x_pos || q.y_pos != p.y_pos)) ==> marked[here]
                == Cell::Turn
            &&& d == p.direction ==> marked == cells.update(there, spec_trail(d))
        }),
{
    let d = p.direction.spec_steered(s);
    let q = spec_step(p, s, width, rows);
    crate::pipe::lemma_wrap_at_edges(Pipe { direction: d, ..p }, width, rows);
    lemma_cell_index_bounds(width as int, rows as int, p.x_pos as int, p.y_pos as int);
    lemma_cell_index_bounds(width as int, rows as int, q.x_pos as int, q.y_pos as int);
    if q.x_pos != p.x_pos || q.y_pos != p.y_pos {
        lemma_cell_index_injective(
            rows as int,
            p.x_pos as int,
            p.y_pos as int,
            q.x_pos as int,
            q.y_pos as int,
        );
    }
}

/// `count` pipes at the middle column of the top row, heading down.
fn initial_pipes(width: u16, height: u16, count: usize) -> (r: Vec<Pipe>)
    requires
        width >= 1,
        height >= 4,
    ensures
        r@ == spec_initial_pipes(width, count as nat),
{
    let mut pipes: Vec<Pipe> = Vec::new();
    let mut i: usize = 0;
    while i < count
        invariant
            i <= count,
            pipes@ == spec_initial_pipes(width, i as nat),
        decreases count - i,
    {
        pipes.push(Pipe::new(width / 2, 0, Direction::Down));
        i = i + 1;
        assert(pipes@ =~= spec_initial_pipes(width, i as nat));
    }
    pipes
}

} // verus!
