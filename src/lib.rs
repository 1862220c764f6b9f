//! Per-frame simulation core of a side-scrolling runner.
//!
//! All quantities are fixed-point integers: lengths in thousandths of a world
//! unit, durations in microseconds, and the world speed multiplier in
//! thousandths. Rendering, input and asset handling live outside this crate.
pub mod units;
pub mod geometry;
pub mod entities;
pub mod spawn;
pub mod world;
pub mod kinematics;
pub mod collision;
pub mod hazards;
pub mod tick;
pub mod render;
pub mod laws;
