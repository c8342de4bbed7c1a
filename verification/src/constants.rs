//! The game's tunable numbers and the coordinate bounds under which the
//! simulation arithmetic is proved exact.  All fixed-point values are in
//! thousandths of a world unit (see [`crate::math::FX_ONE`]).

use vstd::prelude::*;

verus! {

/// Width of the playing field, in thousandths of a unit (forty units).
pub const WORLD_WIDTH: i64 = 40_000;

/// Height of the playing field, in thousandths of a unit (forty units).
pub const WORLD_HEIGHT: i64 = 40_000;

/// Horizontal paddle speed, in thousandths of a unit per second.
pub const PADDLE_SPEED: i64 = 20_000;

/// Ball speed, in thousandths of a unit per second.
pub const BALL_SPEED: i64 = 10_000;

/// Either component of the ball's initial velocity: the unit diagonal
/// `(1, -1)` normalised to length one (`1/sqrt(2)`, rounded to
/// thousandths) times [`BALL_SPEED`].
pub const BALL_SPEED_DIAGONAL: i64 = 7_071;

/// Positions handed to the simulation stay within a million units.
pub const POS_LIMIT: i64 = 3_000_000_000_000;

/// Velocities stay within a million units per second.
pub const VEL_LIMIT: i64 = 1_000_000_000;

/// Hitbox corner offsets stay within a million units.
pub const EXT_LIMIT: i64 = 1_000_000_000;

/// Scale factors of transforms stay within a hundred thousand units.
pub const SCALE_LIMIT: i64 = 100_000_000;

/// Translations of the global map stay within the position bound.
pub const OFFSET_LIMIT: i64 = 3_000_000_000_000;

/// A frame's elapsed time stays within a thousand seconds.
pub const DT_LIMIT: i64 = 1_000_000;

/// Where integration can move a bounded position within one frame: the
/// position bound plus the largest displacement.
pub const POS_STEP_LIMIT: i64 = 4_000_000_000_000;

/// Where a bounded global transform can send an integrated position.
pub const CENTER_LIMIT: i64 = 500_000_000_000_000_000;

/// Sprites stay within a million pixels per axis.
pub const SPRITE_DIM_LIMIT: u32 = 1_000_000;

/// Sprite offsets (in quad space) stay within a million units.
pub const SPRITE_OFFSET_LIMIT: i64 = 1_000_000_000;

} // verus!
