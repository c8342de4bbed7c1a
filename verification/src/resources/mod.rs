//! Shared per-frame resources that are not tied to a single entity.

mod input_state;

pub use input_state::InputState;
