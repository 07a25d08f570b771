//! Lattice hashing for two-dimensional gradient noise.
//!
//! A noise field assigns one of 256 gradient vectors to every point of the
//! integer lattice. Which one is decided here, in integers: a permutation of
//! `0..256` is drawn once, laid out twice in a row, and each lattice point is
//! hashed through that table. The gradients themselves and the blending
//! between the corners of a cell are left to the caller.

pub mod perlin;
pub mod permutation;
pub mod random;

pub use perlin::{CellHashes, Perlin};
