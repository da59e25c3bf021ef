//! Kick Ups: the rules of a small arcade game, verified.
//!
//! A ball falls under gravity inside an 80x50 grid of cells. Clicking on the
//! ball kicks it up and sideways and scores a point; the round ends when the
//! ball drops past the bottom row.
//!
//! Positions and velocities are fixed-point numbers counted in tenths of a
//! cell, so every step of the simulation is exact integer arithmetic.

pub mod ball;
pub mod draw;
pub mod glyph;
pub mod hit_box;
pub mod scene;
pub mod state;
pub mod text;
pub mod timer;
pub mod units;
