//! A discrete-time predator–prey–producer ecosystem on a fixed grid.
//!
//! Each grid cell independently evolves a population of biomass units
//! (plants, herbivorous animals, predators) under simplified
//! consumer–resource dynamics, one generation ("tick") at a time.
//! Unit quantities are IEEE-754 binary64 numbers, carried everywhere as
//! their bit patterns (`u64`), so that the numerical trajectory is pinned
//! down bit for bit; the four floating-point operations the scheme needs
//! are performed by a software implementation of IEEE-754 arithmetic.

pub mod arith;
pub mod grid;
pub mod hunt;
pub mod ids;
pub mod laws;
pub mod model;
pub mod rng;
