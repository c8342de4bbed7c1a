//! The per-frame systems.  Each is a pure step over the store and the
//! shared resources; the platform layer owns the clock, the event queue
//! and the GPU, and drives these in order every frame.

pub mod ball;
pub mod input;
pub mod limiter;
pub mod paddle;
pub mod render;

pub use ball::BallSystem;
pub use input::InputSystem;
pub use limiter::FrameLimiterSystem;
pub use paddle::PaddleSystem;
pub use render::RenderingSystem;
