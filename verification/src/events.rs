//! Event and timer primitives built on the node contract.

pub mod event;
pub mod keyboard_listener;
pub mod timer;

pub use event::Event;
pub use keyboard_listener::KeyDown;
pub use timer::{Timer, VariableTimer};
