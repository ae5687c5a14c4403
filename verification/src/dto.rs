//! The values that cross the pipeline's boundaries.

pub mod detection;
pub mod device;
