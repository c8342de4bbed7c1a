//! The fatal error type of the game: everything that can go wrong is an
//! environment failure reported once with a message and ends the run.

use vstd::prelude::*;

verus! {

/// A fatal game error carrying its description.
#[derive(Debug)]
pub struct GameError(pub String);

impl GameError {
    /// Wrap a description.
    pub fn new(msg: String) -> (r: GameError)
        ensures
            r.0@ == msg@,
    {
        GameError(msg)
    }

    /// The description.
    pub fn message(&self) -> (r: &str)
        ensures
            r@ == self.0@,
    {
        self.0.as_str()
    }
}

} // verus!
