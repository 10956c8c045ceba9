//! Vectors, 4x4 matrices and the transforms built from them.

pub mod angle;
pub mod laws;
pub mod mat4;
pub mod scalar;
pub mod transform;
pub mod vec2;
pub mod vec3;
pub mod vec4;
