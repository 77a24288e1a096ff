//! Actuators addressed through a table of memory-mapped parameters.
mod address;

pub use address::{le_bytes, le_value, Address};
