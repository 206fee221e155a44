//! Simulation core of a fixed-formation shooter.
//!
//! The library owns the game state and advances it once per tick: geometry
//! and collision primitives, the marching enemy formation, ballistic
//! projectiles, the player model, and the orchestrator that ties them
//! together with scoring and round progression. Rendering, audio and the
//! window event loop are external collaborators and live outside this crate.

pub mod bullet;
pub mod components;
pub mod config;
pub mod enemy;
pub mod game;
pub mod intervals;
pub mod player;
pub mod rng;
pub mod sounds;
