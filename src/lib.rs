//! Simulation core of a bat-and-ball reflex game, in fixed-point arithmetic.
//!
//! Lengths are held in micro-units (one world unit is `SCALE` of them), times in
//! microseconds, speeds in micro-units per second.
pub mod geometry;
pub mod swing;
pub mod ball;
pub mod pause;
pub mod bat;
pub mod spawner;
pub mod world;
