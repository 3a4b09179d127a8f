//! Deterministic 2D kinematic movement and tile collision for a
//! platform-game character.
//!
//! All world quantities are fixed-point integers (see [`units`]): positions
//! and sizes in subpixel units, velocities in subpixels per second, durations
//! in milliseconds.  Each fixed tick the integrator advances a character's
//! velocity from input and gravity, and the resolver corrects the tentative
//! position against a solid/empty tile bitmap, axis by axis, deciding whether
//! the character is grounded.

pub mod aabb;
pub mod animation;
pub mod colliders;
pub mod config;
pub mod player;
pub mod properties;
pub mod resolver;
pub mod states;
pub mod tilemap;
pub mod units;
pub mod world;
