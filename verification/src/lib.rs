//! Simulation core of a 2D arena survival game.
//!
//! All quantities are fixed-point integers: a value `x` stands for the real
//! number `x / FX_ONE`. Positions, velocities, radii and durations live in
//! this one scale, so every computation in the simulation is exact integer
//! arithmetic with explicit rounding, and every step of the game loop can be
//! specified and proved.

pub mod collision;
pub mod config;
pub mod enemy;
pub mod entity;
pub mod fixed;
pub mod gamestate;
pub mod player;
pub mod projectile;
pub mod rng;
pub mod trig;
pub mod vec2;
pub mod weapon;
