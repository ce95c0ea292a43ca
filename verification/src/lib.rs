//! Evolutionary search for a boolean half-adder program.
//!
//! A `Machine` carries a fixed 16-byte instruction tape ("genome") for a
//! tiny stack machine with three boolean registers.  A fitness score says
//! how closely the interpreted tape matches the half-adder truth table,
//! and an evolution step breeds a new population from the fittest genome.

pub mod evolve;
pub mod fitness;
pub mod machine;
pub mod randomness;
pub mod stack;
