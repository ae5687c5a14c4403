//! Presence detection from a stream of signal-strength readings.
//!
//! Readings enter a fixed-capacity sliding window; once the window is warm every
//! further reading yields a refreshed window, which is classified against a
//! threshold. The orchestrator at the top debounces incoming readings and decides,
//! for each command it is handed, what has to be sent where.

pub mod ble;
pub mod domain;
pub mod dto;
pub mod errors;
