//! Verified core of an escape-time fractal renderer.
//!
//! The renderer maps every pixel of a raster to a point of the complex
//! plane, iterates a fixed formula there until the value escapes a
//! bail-out radius or an iteration limit is reached, and turns the
//! outcome into a color. All floating-point arithmetic is carried out by
//! the surrounding program; this library holds the parts that can be
//! stated and proved exactly: the pixel-index convention, the escape
//! loop's control decisions, the validation of a render configuration,
//! and the assembly of the output raster.

pub mod bits;
pub mod color;
pub mod complex;
pub mod config;
pub mod escape;
pub mod index;
pub mod raster;
pub mod renderer;
