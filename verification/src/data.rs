//! Small data holders used by consumers of the tree.

pub mod one_shot;

pub use one_shot::OneShot;
