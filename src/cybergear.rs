//! Rotary servo actuators whose identifier carries the command tag, device id
//! and auxiliary fields, and whose payload carries fixed-point quantities.
mod feedback;
mod mode;
mod runner;

pub use feedback::{be_word, lemma_payload_words_round_trip, lemma_unknown_tag_leaves_snapshot, tag_of, Feedback, FeedbackType, TEMPERATURE_UNIT};
pub use mode::MotorModeFeedback;
pub use runner::{
    be_words_payload, frame_id, lemma_frame_id_fits, CyberGear, CAN_ID_CYBERGEAR_DEFAULT, CMD_ID_CHANGE_BAUDRATE, CMD_ID_CHANGE_CAN_ID,
    CMD_ID_FAILURE_FEEDBACK, CMD_ID_FEEDBACK, CMD_ID_NOTHING, CMD_ID_READ_PARAMETER,
    CMD_ID_RUN_TORQUE, CMD_ID_SET_MECHANICAL_ZERO, CMD_ID_TORQUE_DISABLE, CMD_ID_TORQUE_ENABLE,
    CMD_ID_WRITE_PARAMETER, MAX_ANGLE, MAX_D_GAIN, MAX_P_GAIN, MAX_TORQUE, MAX_VELOCITY,
};
