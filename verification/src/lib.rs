//! A discrete-time simulation of circular bodies bouncing inside a rectangular
//! arena under constant gravity.
//!
//! Every length and velocity is a fixed-point number held in an `i64` that
//! counts millionths of a unit (see [`fixed`]). Arithmetic on them is exact
//! and saturates at the limits of `i64`, so every operation of the simulation
//! is total.

pub mod fixed;
pub mod model;
pub mod engine;
pub mod simulation;
pub mod laws;
