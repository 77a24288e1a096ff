//! Codec between actuator commands / telemetry in physical units and the
//! extended CAN frames exchanged with rotary actuator controllers.
//!
//! Physical quantities are carried as fixed-point integers counting
//! millionths of their SI unit (micro-newton-metres, micro-radians, ...).
mod baudrate;
mod can_buffer;
pub mod cybergear;
mod error;
pub mod robstride;
pub mod scaling;

pub use baudrate::Baudrate;
pub use can_buffer::{
    extended_id_raw, frame_dlc, frame_extended_id, frame_payload, CanBuffer, EXTENDED_ID_MAX,
};
pub use error::CanMotorError;
