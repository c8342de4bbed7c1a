//! Core of a paddle-and-ball arcade game: fixed-point coordinate math, a
//! transform hierarchy from world space to screen space, axis-aligned
//! bounding-box overlap classification, a generational entity-component
//! store, and the per-frame simulation systems (input, paddle, ball, frame
//! limiter) together with the rendering adapter that turns entities into
//! draw commands.  Window management, GPU uploads and image decoding live
//! outside this crate and talk to it through plain values.

pub mod asset_manager;
pub mod breakout;
pub mod components;
pub mod constants;
pub mod game_error;
pub mod math;
pub mod resources;
pub mod systems;
pub mod types;
pub mod world;

pub use game_error::GameError;
pub use math::Fx;
pub use math::Mat;
pub use math::Vec2;
pub use types::GameEvent;
pub use types::OverlapType;
