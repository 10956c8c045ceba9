//! The renderer's records of what it has made in the graphics driver.

pub mod constants;
pub mod mesh;
pub mod shader;
pub mod texture;
