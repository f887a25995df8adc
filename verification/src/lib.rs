//! Core simulation of a two-paddle, one-ball arcade game.
//!
//! The library owns the whole per-tick state machine: ball and paddle
//! physics with wall bounces, one-sided paddle collision with speed
//! amplification, scoring with ball reset, a decorative particle system,
//! and a bounded trail of recent ball positions.  Positions and
//! velocities are kept in integer milli-pixels so that every step of the
//! physics is exact and provable; a thin driver converts to whatever a
//! renderer needs and pumps input events into [`game::Intent`] values.

pub mod ball;
pub mod config;
pub mod game;
pub mod geometry;
pub mod hud;
pub mod laws;
pub mod paddle;
pub mod panel;
pub mod particle;
pub mod rng;
