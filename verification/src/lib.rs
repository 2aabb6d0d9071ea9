//! A 2D grid library: a generic heap-allocated grid addressed by 2D integer
//! vectors, and the vector type itself.
//!
//! For a position `Vector { x, y }` in a grid, `x` selects the column and `y`
//! selects the row; the grid stores `width * height` cells contiguously in
//! row-major order, and its iterators traverse it in that order.

pub mod grid;
pub mod iterators;
pub mod render;
pub mod vector;

pub use crate::grid::Grid;
pub use crate::vector::Vector;
