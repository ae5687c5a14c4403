//! The values and entities the stored samples are made of.

pub mod entity;
pub mod value_objects;
