//! The cooperative loading engine.

pub mod executor;
pub mod on_loaded;
pub mod state;
pub mod with_loading;

pub use executor::AsyncExecutor;
pub use on_loaded::OnLoaded;
pub use state::{AsyncState, Lend};
pub use with_loading::WithLoading;
