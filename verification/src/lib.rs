//! Conway's Game of Life on a flat, fixed-size grid.
//!
//! [`board`] holds the grid and the generational transition rule, with
//! the rule's laws stated and proved; [`raster`] maps a board onto a
//! 4-byte-per-pixel RGBA frame buffer. Each generation is a fresh,
//! self-contained [`board::Board`]; edges do not wrap.

pub mod board;
pub mod raster;
