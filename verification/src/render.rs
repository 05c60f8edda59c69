//! Leaf nodes that draw from the state.

pub mod background;
pub mod rectangle;
pub mod text;
pub mod tiled;
pub mod viewport;

pub use background::Background;
pub use rectangle::{Rectangle, RectangleProps};
pub use text::{Text, TextProperties};
pub use tiled::{Tiled, TiledProperties};
pub use viewport::{ScreenSizeConfig, Viewport};
