//! Adaptive size-constrained JPEG encoder.
//!
//! Given a decoded raster image and a byte budget, produce an encoded byte
//! stream that fits the budget while keeping as much resolution as possible,
//! using a bounded number of resize-and-encode trials.

pub mod codec;
pub mod compress;
pub mod event;
pub mod raster;
pub mod search;
