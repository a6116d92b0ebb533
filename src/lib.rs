//! A corner-only 2×2×2 twisty puzzle: an exact state model with verified
//! move semantics, a rotation-tolerant solved test, and a breadth-first
//! solver that returns a shortest solving sequence.

pub mod cube;
pub mod moves;
pub mod laws;
pub mod solver;
pub mod render;
pub mod command;
