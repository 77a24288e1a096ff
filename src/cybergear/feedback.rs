//! Feedback decoder: turns an inbound frame into a telemetry snapshot.
use crate::can_buffer::CanBuffer;
use crate::cybergear::mode::MotorModeFeedback;
use crate::cybergear::runner::{
    CMD_ID_FAILURE_FEEDBACK, CMD_ID_FEEDBACK, CMD_ID_READ_PARAMETER, MAX_ANGLE, MAX_TORQUE,
    MAX_VELOCITY, TAG_SHIFT, be_words_payload,
};
use crate::error::CanMotorError;
use crate::scaling::{scale_from_u16, scale_from_u16_spec};
use vstd::prelude::*;

verus! {

/// Micro-degrees per unit of the temperature field (a tenth of a degree).
pub const TEMPERATURE_UNIT: i64 = 100_000;

/// Kinds of inbound frame, by command tag.
#[derive(Debug, Clone, Copy, PartialEq, Eq, Structural)]
pub enum FeedbackType {
    /// Tag 2: regular telemetry.
    Normal,
    /// Tag 17: result of a parameter read.
    ParameterResult,
    /// Tag 21: failure report.
    Failure,
}

/// The command tag of an identifier: its bits from 24 up.
pub open spec fn tag_of(id: u32) -> u32 {
    id >> 24u32
}

/// Big-endian 16-bit word at payload bytes `i` (high byte) and `i + 1`.
pub open spec fn be_word(data: [u8; 8], i: int) -> int {
    256 * data[i] + data[i + 1]
}

/// Latest telemetry reported by an actuator. Readings are fixed-point:
/// micro-radians, micro-radians per second, micro-newton-metres and
/// micro-degrees Celsius.
#[derive(Debug, Clone, Copy)]
pub struct Feedback {
    pub is_not_calibrated: bool,
    pub is_hall_encoder_error: bool,
    pub is_magnet_encoder_error: bool,
    pub is_overheating: bool,
    pub is_overcurrent: bool,
    pub is_undervoltage: bool,
    pub mode: MotorModeFeedback,
    pub angle: i64,
    pub velocity: i64,
    pub torque: i64,
    pub temperature: i64,
}

impl Feedback {
    /// The snapshot before any telemetry arrived.
    pub open spec fn zeroed() -> Feedback {
        Feedback {
            is_not_calibrated: false,
            is_hall_encoder_error: false,
            is_magnet_encoder_error: false,
            is_overheating: false,
            is_overcurrent: false,
            is_undervoltage: false,
            mode: MotorModeFeedback::Reset,
            angle: 0,
            velocity: 0,
            torque: 0,
            temperature: 0,
        }
    }

    /// The kind of a frame with identifier `id`, if it is one this decoder knows.
    pub open spec fn feedback_type_spec(id: u32) -> Option<FeedbackType> {
        let tag = tag_of(id);
        if tag == CMD_ID_FEEDBACK {
            Some(FeedbackType::Normal)
        } else if tag == CMD_ID_READ_PARAMETER {
            Some(FeedbackType::ParameterResult)
        } else if tag == CMD_ID_FAILURE_FEEDBACK {
            Some(FeedbackType::Failure)
        } else {
            None
        }
    }

    /// The snapshot that a regular telemetry frame reports: fault flags in
    /// identifier bits 16-21, mode in bits 22-23, and four big-endian
    /// words of payload for angle, velocity, torque and temperature.
    pub open spec fn decoded(id: u32, data: [u8; 8]) -> Feedback {
        Feedback {
            is_not_calibrated: (id >> 21u32) & 1 == 1,
            is_hall_encoder_error: (id >> 20u32) & 1 == 1,
            is_magnet_encoder_error: (id >> 19u32) & 1 == 1,
            is_overheating: (id >> 18u32) & 1 == 1,
            is_overcurrent: (id >> 17u32) & 1 == 1,
            is_undervoltage: (id >> 16u32) & 1 == 1,
            mode: MotorModeFeedback::from_field_spec((id >> 22u32) & 3),
            angle: scale_from_u16_spec(be_word(data, 0), -MAX_ANGLE, MAX_ANGLE as int) as i64,
            velocity: scale_from_u16_spec(
                be_word(data, 2),
                -MAX_VELOCITY,
                MAX_VELOCITY as int,
            ) as i64,
            torque: scale_from_u16_spec(be_word(data, 4), -MAX_TORQUE, MAX_TORQUE as int) as i64,
            temperature: (be_word(data, 6) * TEMPERATURE_UNIT) as i64,
        }
    }

    /// The result of decoding `buffer` into this snapshot, and the snapshot
    /// after it. Regular telemetry replaces the whole snapshot; parameter-read
    /// results and failure reports are `Unsupported`; any other frame is
    /// ignored. Only regular telemetry changes the snapshot.
    pub open spec fn decode_spec(self, buffer: CanBuffer) -> (Result<(), CanMotorError>, Feedback) {
        match Self::feedback_type_spec(buffer.extended_can_id) {
            Some(FeedbackType::Normal) => (
                Ok(()),
                Self::decoded(buffer.extended_can_id, buffer.buffer),
            ),
            Some(_) => (Err(CanMotorError::Unsupported), self),
            None => (Ok(()), self),
        }
    }

    /// Updates the snapshot from an inbound frame, as `decode_spec` says.
    pub fn from_can_buffer(&mut self, buffer: &CanBuffer) -> (r: Result<(), CanMotorError>)
        ensures
            (r, *final(self)) == old(self).decode_spec(*buffer),
    {
        match Self::check_id(buffer.extended_can_id) {
            Some(FeedbackType::Normal) => {
                self.parse_id_normal(buffer.extended_can_id);
                self.parse_data_buffer_normal(&buffer.buffer);
                Ok(())
            },
            Some(FeedbackType::ParameterResult) => Err(CanMotorError::Unsupported),
            Some(FeedbackType::Failure) => Err(CanMotorError::Unsupported),
            None => Ok(()),
        }
    }

    fn check_id(id: u32) -> (r: Option<FeedbackType>)
        ensures
            r == Self::feedback_type_spec(id),
    {
        let tag = id >> TAG_SHIFT;
        if tag == CMD_ID_FEEDBACK {
            Some(FeedbackType::Normal)
        } else if tag == CMD_ID_READ_PARAMETER {
            Some(FeedbackType::ParameterResult)
        } else if tag == CMD_ID_FAILURE_FEEDBACK {
            Some(FeedbackType::Failure)
        } else {
            None
        }
    }

    fn parse_id_normal(&mut self, id: u32)
        ensures
            final(self).is_not_calibrated == ((id >> 21u32) & 1 == 1),
            final(self).is_hall_encoder_error == ((id >> 20u32) & 1 == 1),
            final(self).is_magnet_encoder_error == ((id >> 19u32) & 1 == 1),
            final(self).is_overheating == ((id >> 18u32) & 1 == 1),
            final(self).is_overcurrent == ((id >> 17u32) & 1 == 1),
            final(self).is_undervoltage == ((id >> 16u32) & 1 == 1),
            final(self).mode == MotorModeFeedback::from_field_spec((id >> 22u32) & 3),
            final(self).angle == old(self).angle,
            final(self).velocity == old(self).velocity,
            final(self).torque == old(self).torque,
            final(self).temperature == old(self).temperature,
    {
        self.is_not_calibrated = (id >> 21) & 1 == 1;
        self.is_hall_encoder_error = (id >> 20) & 1 == 1;
        self.is_magnet_encoder_error = (id >> 19) & 1 == 1;
        self.is_overheating = (id >> 18) & 1 == 1;
        self.is_overcurrent = (id >> 17) & 1 == 1;
        self.is_undervoltage = (id >> 16) & 1 == 1;
        self.mode = MotorModeFeedback::from_field((id >> 22) & 3);
    }

    fn read_be_word(data: &[u8; 8], i: usize) -> (r: u16)
        requires
            i < 7,
        ensures
            r == be_word(*data, i as int),
    {
        (data[i] as u16) * 256 + data[i + 1] as u16
    }

    fn parse_data_buffer_normal(&mut self, buffer: &[u8; 8])
        ensures
            ({
                let d = Self::decoded(0u32, *buffer);
                &&& final(self).angle == d.angle
                &&& final(self).velocity == d.velocity
                &&& final(self).torque == d.torque
                &&& final(self).temperature == d.temperature
            }),
            final(self).is_not_calibrated == old(self).is_not_calibrated,
            final(self).is_hall_encoder_error == old(self).is_hall_encoder_error,
            final(self).is_magnet_encoder_error == old(self).is_magnet_encoder_error,
            final(self).is_overheating == old(self).is_overheating,
            final(self).is_overcurrent == old(self).is_overcurrent,
            final(self).is_undervoltage == old(self).is_undervoltage,
            final(self).mode == old(self).mode,
    {
        self.angle = scale_from_u16(Self::read_be_word(buffer, 0), -MAX_ANGLE, MAX_ANGLE);
        self.velocity = scale_from_u16(Self::read_be_word(buffer, 2), -MAX_VELOCITY, MAX_VELOCITY);
        self.torque = scale_from_u16(Self::read_be_word(buffer, 4), -MAX_TORQUE, MAX_TORQUE);
        self.temperature = Self::read_be_word(buffer, 6) as i64 * TEMPERATURE_UNIT;
    }
}

/// A frame whose tag is none of regular telemetry, parameter-read result or
/// failure report leaves the snapshot exactly as it was, without an error.
pub proof fn lemma_unknown_tag_leaves_snapshot(f: Feedback, buffer: CanBuffer)
    requires
        tag_of(buffer.extended_can_id) != CMD_ID_FEEDBACK,
        tag_of(buffer.extended_can_id) != CMD_ID_READ_PARAMETER,
        tag_of(buffer.extended_can_id) != CMD_ID_FAILURE_FEEDBACK,
    ensures
        f.decode_spec(buffer) == (Ok::<(), CanMotorError>(()), f),
{
}

/// Decoding reads each payload word in the byte order that the encoder
/// writes it: the words of a payload laid out high byte first come back whole.
pub proof fn lemma_payload_words_round_trip(data: [u8; 8], w0: u16, w1: u16, w2: u16, w3: u16)
    requires
        data@ == be_words_payload(w0, w1, w2, w3),
    ensures
        be_word(data, 0) == w0,
        be_word(data, 2) == w1,
        be_word(data, 4) == w2,
        be_word(data, 6) == w3,
{
    assert(data[0] == data@[0] && data[1] == data@[1] && data[2] == data@[2] && data[3] == data@[3]);
    assert(data[4] == data@[4] && data[5] == data@[5] && data[6] == data@[6] && data[7] == data@[7]);
}

impl Default for Feedback {
    fn default() -> (r: Feedback)
        ensures
            r == Feedback::zeroed(),
    {
        Feedback {
            is_not_calibrated: false,
            is_hall_encoder_error: false,
            is_magnet_encoder_error: false,
            is_overheating: false,
            is_overcurrent: false,
            is_undervoltage: false,
            mode: MotorModeFeedback::Reset,
            angle: 0,
            velocity: 0,
            torque: 0,
            temperature: 0,
        }
    }
}

} // verus!
