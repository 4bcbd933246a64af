use vstd::prelude::*;

verus! {

/// The phase the game is in.
#[derive(Debug, Clone, Copy, PartialEq, Eq, Structural)]
pub enum State {
    Draft,
    Season,
    Undefined,
}

} // verus!
