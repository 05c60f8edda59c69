//! Time-driven animation: the frame-time stepper and the tween engine.

pub mod animate_state;
pub mod tween;

pub use animate_state::AnimateState;
pub use tween::{Tween, TweenConfig, TweenKind};
