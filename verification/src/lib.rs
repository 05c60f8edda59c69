//! A statically composed, state-threading component tree.
//!
//! A scene is a tree of nodes. Every frame the driving loop runs three
//! passes over the whole tree against one shared state value: `process`
//! (mutate the state), `render` (emit draw commands from the state) and
//! `ui` (declare immediate-mode widgets and fold their responses back
//! into the state). Lens combinators adapt nodes that need a narrower
//! state shape, control-flow combinators gate which children run, and
//! two small state machines drive tweened animation and cooperative
//! loading of suspended computations.
//!
//! Continuous quantities (time, coordinates, animation progress) are
//! fixed-point integers in millionths, so every formula in the tree is
//! exact integer arithmetic.

pub mod fixed;
pub mod context;
pub mod frame;
pub mod ui;
pub mod component;
pub mod logic;
pub mod animation;
pub mod asyncs;
pub mod data;
pub mod events;
pub mod render;
pub mod widgets;
pub mod settings;

pub use component::Component;
pub use context::Context;
pub use frame::Frame;
pub use ui::Ui;
