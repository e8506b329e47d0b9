//! A verified core for a bounded-grid rover simulation.
//!
//! A rover stands on a cell of a rectangular grid, faces one of the four
//! compass directions, and obeys three commands: turn left, turn right, and
//! move one cell forward. A forward move whose target cell lies outside the
//! grid marks the rover as lost; a lost rover is frozen at its last in-bounds
//! pose and ignores every further command. All console prompting, parsing of
//! operator input, and printing live outside this crate in a session driver;
//! the core itself is total and never panics.

pub mod commands;
pub mod grid;
pub mod rover;
