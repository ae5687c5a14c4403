//! The entities that are stored.

pub mod sample;
