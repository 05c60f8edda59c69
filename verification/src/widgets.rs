//! Immediate-mode widget nodes for the UI pass.

pub mod button;
pub mod checkbox;
pub mod combo_box;
pub mod group;
pub mod input;
pub mod label;
pub mod window;

pub use button::{Button, ButtonProperties};
pub use checkbox::{CheckBox, CheckboxProperties};
pub use combo_box::{ComboBox, ComboBoxProperties};
pub use group::{Group, GroupProperties};
pub use input::{Input, InputProperties};
pub use label::{Label, LabelProperties};
pub use window::{Window, WindowProperties};
