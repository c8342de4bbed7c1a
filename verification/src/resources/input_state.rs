//! The shared keyboard state the paddle system reads.

use vstd::prelude::*;

verus! {

/// Which of the four direction keys are currently held down.  The booleans
/// mirror the physical key state: pressed sets them, released clears them,
/// nothing resets them between frames.
#[derive(Copy, Clone, Debug, PartialEq, Eq, Structural)]
pub struct InputState {
    pub left: bool,
    pub right: bool,
    pub up: bool,
    pub down: bool,
}

impl Default for InputState {
    /// No key held.
    fn default() -> (r: InputState)
        ensures
            !r.left,
            !r.right,
            !r.up,
            !r.down,
    {
        InputState { left: false, right: false, up: false, down: false }
    }
}

} // verus!
