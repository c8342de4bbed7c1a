//! Marker for entities the ball can bounce off.

use vstd::prelude::*;

verus! {

/// Tag component: the entity takes part in ball collision tests.
#[derive(Copy, Clone, Debug, Default)]
pub struct IsCollidable;

} // verus!
