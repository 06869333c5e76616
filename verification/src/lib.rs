//! A generic, pluggable cellular-automaton engine: a double-buffered 2-D grid
//! of homogeneous cells, a boundary policy that makes every neighbor lookup
//! total, a narrow per-cell view used to compute the next generation, and a
//! uniform mechanism for bulk randomization and for localized interactions.
pub mod cell;
pub mod cell_library;
pub mod config;
pub mod generic_system;
pub mod grid;
pub mod input;
pub mod rng;
pub mod util;
