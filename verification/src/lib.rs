//! A terminal dashboard core for live latency monitoring: it turns a bounded,
//! most-recent-first window of latency samples into an ordered sequence of
//! styled paint operations for a constrained viewport, with auto-scaling axis
//! bounds, severity coloring and sub-character vertical resolution.

pub mod chart;
pub mod datapoint;
pub mod geometry;
pub mod paint;
pub mod scale;
pub mod summary;
pub mod text;
pub mod ui;
pub mod window;
