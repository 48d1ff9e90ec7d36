//! Sample sequences drawn from several random number generators, the running
//! fitness score derived from each, and the description of the chart that shows
//! both.
//!
//! Everything here works on plain values. Drawing the chart as an image and
//! storing it are left to the caller.

pub mod chart;
pub mod driver;
pub mod error;
pub mod fitness;
pub mod names;
pub mod raster;
pub mod samples;
pub mod strategy;
