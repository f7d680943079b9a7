//! Deterministic fixed-point simulation of a steerable vehicle and its
//! particle trail.

pub mod effects;
pub mod entities;
pub mod fixed;
pub mod geometry;
pub mod laws;
pub mod motion;
pub mod noise;
pub mod outline;
pub mod overlay;
pub mod render;
pub mod trig;
