//! A verified model of a small 2D sprite demo: a grid of spinning sprites,
//! an orbiting camera with mouse-wheel zoom, and a periodic sprite-count log.
//!
//! All quantities are fixed-point integers: angles in millionths of a full
//! turn, positions in thousandths of a pixel, the projection scale in units
//! of 1/40000, and time in millisecond ticks.

pub mod angle;
pub mod camera;
pub mod rng;
pub mod sprite;
pub mod timer;
pub mod world;
pub mod zoom;
