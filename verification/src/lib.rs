//! Escape-time fractal rendering, split into a verified core and thin callers.
//!
//! The library holds the integer side of the renderer: the decisions of the
//! escape-time loop and the count they produce, the character bucket table,
//! linear pixel indexing, and the assembly of a full character grid or
//! grayscale pixel buffer from per-pixel iteration counts. The floating-point
//! orbit arithmetic lives with the driver, which hands escape-test outcomes
//! and iteration counts in as plain values.

pub mod ascii;
pub mod escape;
pub mod raster;
