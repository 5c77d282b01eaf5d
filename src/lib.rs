//! A toroidal Game of Life engine with a double-buffered grid.
//!
//! The grid is a row-major sequence of [`Cell`](cell::Cell)s. Every generation is computed
//! from the previous one alone: the next state of each cell is written into a
//! scratch buffer, and the two buffers then swap roles.

pub mod cell;
pub mod grid;
pub mod universe;
pub mod laws;

pub use cell::Cell;
pub use universe::Universe;
