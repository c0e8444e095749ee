pub mod brush;
pub mod texture;
