use vstd::prelude::*;

verus! {

/// The heading of a pipe, in the cyclic order Left, Up, Right, Down.
#[derive(Clone, Copy, Debug, PartialEq, Eq, Structural)]
pub enum Direction {
    Left,
    Up,
    Right,
    Down,
}

/// What a pipe does with its heading on one tick.
#[derive(Clone, Copy, Debug, PartialEq, Eq, Structural)]
pub enum Steer {
    Straight,
    Clockwise,
    CounterClockwise,
}

impl Direction {
    /// Position of the direction in the cycle Left, Up, Right, Down.
    pub open spec fn index(self) -> int {
        match self {
            Direction::Left => 0,
            Direction::Up => 1,
            Direction::Right => 2,
            Direction::Down => 3,
        }
    }

    pub open spec fn spec_clockwise(self) -> Direction {
        match self {
            Direction::Left => Direction::Up,
            Direction::Up => Direction::Right,
            Direction::Right => Direction::Down,
            Direction::Down => Direction::Left,
        }
    }

    pub open spec fn spec_counter_clockwise(self) -> Direction {
        match self {
            Direction::Left => Direction::Down,
            Direction::Up => Direction::Left,
            Direction::Right => Direction::Up,
            Direction::Down => Direction::Right,
        }
    }

    pub open spec fn spec_steered(self, s: Steer) -> Direction {
        match s {
            Steer::Straight => self,
            Steer::Clockwise => self.spec_clockwise(),
            Steer::CounterClockwise => self.spec_counter_clockwise(),
        }
    }

    pub open spec fn spec_is_horizontal(self) -> bool {
        self == Direction::Left || self == Direction::Right
    }

    /// One step clockwise: the next direction in the cycle.
    pub fn clockwise(self) -> (r: Direction)
        ensures
            r == self.spec_clockwise(),
            r.index() == (self.index() + 1) % 4,
    {
        match self {
            Direction::Left => Direction::Up,
            Direction::Up => Direction::Right,
            Direction::Right => Direction::Down,
            Direction::Down => Direction::Left,
        }
    }

    /// One step counter-clockwise: the previous direction in the cycle.
    pub fn counter_clockwise(self) -> (r: Direction)
        ensures
            r == self.spec_counter_clockwise(),
            r.index() == (self.index() + 3) % 4,
    {
        match self {
            Direction::Left => Direction::Down,
            Direction::Up => Direction::Left,
            Direction::Right => Direction::Up,
            Direction::Down => Direction::Right,
        }
    }

    /// The heading after applying `s`.
    pub fn steered(self, s: Steer) -> (r: Direction)
        ensures
            r == self.spec_steered(s),
    {
        match s {
            Steer::Straight => self,
            Steer::Clockwise => self.clockwise(),
            Steer::CounterClockwise => self.counter_clockwise(),
        }
    }

    /// Whether the direction runs along a row.
    pub fn is_horizontal(self) -> (r: bool)
        ensures
            r == self.spec_is_horizontal(),
    {
        match self {
            Direction::Left | Direction::Right => true,
            _ => false,
        }
    }
}

/// The turning policy on four fair coins: a turn is tried only when the first
/// three all come up true, and the fourth then picks clockwise over
/// counter-clockwise.
pub open spec fn spec_decide_steer(a: bool, b: bool, c: bool, d: bool) -> Steer {
    if a && b && c {
        if d {
            Steer::Clockwise
        } else {
            Steer::CounterClockwise
        }
    } else {
        Steer::Straight
    }
}

pub fn decide_steer(a: bool, b: bool, c: bool, d: bool) -> (r: Steer)
    ensures
        r == spec_decide_steer(a, b, c, d),
{
    if a && b && c {
        if d {
            Steer::Clockwise
        } else {
            Steer::CounterClockwise
        }
    } else {
        Steer::Straight
    }
}

/// Relies on rand::random for `bool`: a fair coin from the thread-local
/// generator. Nothing is known of the outcome.
#[verifier::external_body]
fn coin_flip() -> (r: bool) {
    rand::random::<bool>()
}

/// Draws a steering decision from the process-wide random source and applies
/// the turning policy to it. A coin is flipped only while the policy still
/// needs it: once one of the first three comes up false, the rest count as
/// false, which the policy reads the same way.
pub fn random_steer() -> (r: Steer) {
    let a = coin_flip();
    let b = if a {
        coin_flip()
    } else {
        false
    };
    let c = if b {
        coin_flip()
    } else {
        false
    };
    let d = if c {
        coin_flip()
    } else {
        false
    };
    decide_steer(a, b, c, d)
}

/// Clockwise and counter-clockwise rotation undo each other, and four steps
/// either way bring every direction back to itself.
pub proof fn lemma_rotation_cycle(d: Direction)
    ensures
        d.spec_clockwise().spec_counter_clockwise() == d,
        d.spec_counter_clockwise().spec_clockwise() == d,
        d.spec_clockwise().spec_clockwise().spec_clockwise().spec_clockwise() == d,
        d.spec_counter_clockwise().spec_counter_clockwise().spec_counter_clockwise().spec_counter_clockwise()
            == d,
        d.spec_clockwise() != d,
        d.spec_counter_clockwise() != d,
{
}

} // verus!
