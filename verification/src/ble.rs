//! The sampling and classification pipeline.

pub mod detection;
pub mod device_table;
pub mod model;
pub mod presence_detector;
pub mod processor;
pub mod ring_buffer;
pub mod sampler;
pub mod service;
pub mod sliding_window;
