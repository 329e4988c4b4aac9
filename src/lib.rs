//! Conway's Game of Life on a fixed-size, double-buffered grid.

pub mod grid;
pub mod rule;
pub mod game;
pub mod laws;
