pub mod buffer;
pub mod color;
pub mod grid;
pub mod image;
pub mod node;
