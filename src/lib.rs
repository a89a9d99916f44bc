//! Integer-indexed grids with pluggable storage and lazy, chainable views.
//!
//! `range` holds the axis bounds, `grid2` the two-dimensional grids and `grid3` the same
//! design with a third axis.

pub mod range;
pub mod grid2;
pub mod grid3;
