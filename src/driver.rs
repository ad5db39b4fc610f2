use vstd::prelude::*;

verus! {

/// What the wait between frames ended with.
#[derive(Clone, Copy, Debug, PartialEq, Eq, Structural)]
pub enum Input {
    /// The frame interval ran out with no key.
    Timeout,
    /// The Enter key, which ends the animation.
    Enter,
    /// Any other key or terminal event.
    Other,
}

/// What the loop does after the wait.
#[derive(Clone, Copy, Debug, PartialEq, Eq, Structural)]
pub enum Action {
    Continue,
    Exit,
}

/// Only Enter ends the animation; every other outcome of the wait goes on to
/// the next tick.
pub fn after_wait(input: Input) -> (r: Action)
    ensures
        r == Action::Exit <==> input == Input::Enter,
{
    match input {
        Input::Enter => Action::Exit,
        _ => Action::Continue,
    }
}

} // verus!
