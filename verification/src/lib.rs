//! Escape-time fractal rendering on IEEE 754 bit patterns.

pub mod color;
pub mod complex;
pub mod fractal;
pub mod ieee;
pub mod raster;
pub mod scalar;
