use vstd::prelude::*;
use crate::direction::Direction;

verus! {

/// A pipe's head: its cell and its heading.
#[derive(Clone, Copy, Debug, PartialEq, Eq, Structural)]
pub struct Pipe {
    pub x_pos: u16,
    pub y_pos: u16,
    pub direction: Direction,
}

impl Pipe {
    pub fn new(x_pos: u16, y_pos: u16, direction: Direction) -> (r: Pipe)
        ensures
            r == (Pipe { x_pos, y_pos, direction }),
    {
        Pipe { x_pos, y_pos, direction }
    }

    /// The pipe stands on a `width` by `rows` grid.
    pub open spec fn in_bounds(self, width: u16, rows: u16) -> bool {
        self.x_pos < width && self.y_pos < rows
    }

    /// The pipe after one cell of movement along its heading, wrapping at
    /// the edges of a `width` by `rows` grid.
    pub open spec fn spec_advanced(self, width: u16, rows: u16) -> Pipe {
        match self.direction {
            Direction::Left => Pipe {
                x_pos: if self.x_pos > 0 { (self.x_pos - 1) as u16 } else { (width - 1) as u16 },
                ..self
            },
            Direction::Right => Pipe {
                x_pos: if self.x_pos + 1 < width { (self.x_pos + 1) as u16 } else { 0 },
                ..self
            },
            Direction::Up => Pipe {
                y_pos: if self.y_pos > 0 { (self.y_pos - 1) as u16 } else { (rows - 1) as u16 },
                ..self
            },
            Direction::Down => Pipe {
                y_pos: if self.y_pos + 1 < rows { (self.y_pos + 1) as u16 } else { 0 },
                ..self
            },
        }
    }

    /// Moves the pipe one cell along its heading, wrapping at the edges.
    pub fn advance(&mut self, width: u16, rows: u16)
        requires
            old(self).in_bounds(width, rows),
        ensures
            *final(self) == old(self).spec_advanced(width, rows),
            final(self).in_bounds(width, rows),
    {
        match self.direction {
            Direction::Left => {
                if self.x_pos > 0 {
                    self.x_pos = self.x_pos - 1;
                } else {
                    self.x_pos = width - 1;
                }
            },
            Direction::Right => {
                if self.x_pos < width - 1 {
                    self.x_pos = self.x_pos + 1;
                } else {
                    self.x_pos = 0;
                }
            },
            Direction::Up => {
                if self.y_pos > 0 {
                    self.y_pos = self.y_pos - 1;
                } else {
                    self.y_pos = rows - 1;
                }
            },
            Direction::Down => {
                if self.y_pos < rows - 1 {
                    self.y_pos = self.y_pos + 1;
                } else {
                    self.y_pos = 0;
                }
            },
        }
    }
}

/// Movement wraps: leaving column 0 to the left enters the last column,
/// leaving the last column to the right enters column 0, and likewise for
/// the first and last rows. Every move keeps the pipe on the grid.
pub proof fn lemma_wrap_at_edges(p: Pipe, width: u16, rows: u16)
    requires
        p.in_bounds(width, rows),
    ensures
        p.spec_advanced(width, rows).in_bounds(width, rows),
        p.direction == Direction::Left && p.x_pos == 0 ==> p.spec_advanced(width, rows).x_pos
            == width - 1,
        p.direction == Direction::Right && p.x_pos == width - 1 ==> p.spec_advanced(
            width,
            rows,
        ).x_pos == 0,
        p.direction == Direction::Up && p.y_pos == 0 ==> p.spec_advanced(width, rows).y_pos == rows
            - 1,
        p.direction == Direction::Down && p.y_pos == rows - 1 ==> p.spec_advanced(
            width,
            rows,
        ).y_pos == 0,
{
}

} // verus!
