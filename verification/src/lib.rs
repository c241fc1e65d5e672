//! Verified core of a desktop system monitor: the bounded per-metric history
//! window, the sampler's pure decisions, and the GPU reading model.

pub mod gpu;
pub mod metrics;
pub mod sampler;
