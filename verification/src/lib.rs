//! Linear algebra for a small renderer, together with the bookkeeping that the
//! renderer keeps next to the graphics driver.
//!
//! The arithmetic is written once, over any number type that implements
//! [`math::scalar::Scalar`]; every function states which operations it applies to
//! which operands, and in which order.

pub mod canvas;
pub mod context;
pub mod math;
pub mod renderer;
pub mod system;
