//! Control-flow and lens combinators, and the driving loop.

pub mod choice;
pub mod contained_state;
pub mod mapper;
pub mod never;
pub mod only_render_on;
pub mod selector;
pub mod statefull;
pub mod static_value;

pub use choice::Choice;
pub use contained_state::ContainedState;
pub use mapper::{Comp, MapInto};
pub use never::Never;
pub use only_render_on::{OnlyRenderOn, OnlyRenderWith};
pub use selector::Selector;
pub use statefull::StateFull;
pub use static_value::StaticValue;
