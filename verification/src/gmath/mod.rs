//! Plane geometry over fixed-point numbers.

pub mod shapes;
pub mod vectors;
