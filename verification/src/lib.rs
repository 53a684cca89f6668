//! Simulation core of a small 2D space-defense arcade game.
//!
//! A player ship defends a "home" planet that orbits a star. Enemy ships
//! spawn on a ring around the origin, pick a target (player or home), close
//! in and fire. Bullets fly under gravity, may home in on a locked target,
//! and despawn on expiry or on their first hit. The game is won when the
//! home planet completes its orbit alive, and lost when its health reaches
//! zero.
//!
//! All quantities are integers in fixed-point units:
//!   - distances and velocities in milli-units (1000 = one world unit),
//!   - time in milliseconds,
//!   - angles in units of `1/6284` turn (about one milliradian),
//!   - dimensionless factors (trig values, decay factors) in the scales
//!     given where they are used.
//!
//! Rendering, audio, input devices and windowing are the host's business:
//! the core consumes plain per-tick commands and hands back entity
//! snapshots and an ordered event outbox.

pub mod bullet;
pub mod collider;
pub mod enemy;
pub mod events;
pub mod fixed;
pub mod game_state;
pub mod gravity;
pub mod health;
pub mod kinematics;
pub mod level;
pub mod planet;
pub mod player;
pub mod progress;
pub mod rng;
pub mod ship;
pub mod trig;
pub mod vec3;
pub mod world;
