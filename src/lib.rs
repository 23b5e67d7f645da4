//! Bilinear interpolation over a regular two-dimensional grid.
//!
//! The library holds the exact, integer part of the method: a dense store of
//! node values, the rule that brackets a position on one axis between two
//! nodes, and the fetch of the four corner values that enclose a query point.
//! The caller measures a coordinate in units of the grid step (a `Ratio`) and
//! blends the corner values of the returned `Cell`.

pub mod axis;
pub mod grid;

pub use axis::{locate, Bracket, Ratio};
pub use grid::{Cell, Grid};
