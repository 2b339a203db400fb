//! Simulation core of a 2D arcade shoot-'em-up.
//!
//! The library owns the authoritative game state (hero, enemies, bullets,
//! score), advances it on a fixed-rate tick, consumes discrete input events,
//! resolves collisions, and builds a renderable snapshot each frame.  All
//! kinematic quantities are fixed-point integers in tenths of a pixel
//! (deci-pixels), so every rule of the simulation is stated and proved
//! exactly.

pub mod animation;
pub mod attribute;
pub mod entity;
pub mod game;
pub mod input;
pub mod render;
