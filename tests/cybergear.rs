use can_motor_rs::cybergear::{
    CyberGear, Feedback, MotorModeFeedback, CAN_ID_CYBERGEAR_DEFAULT, MAX_TORQUE,
};
use can_motor_rs::{Baudrate, CanBuffer, CanMotorError};

const REFERENCE_ID: u32 = 0x02807F00;
const REFERENCE_DATA: [u8; 8] = [0x75, 0x8A, 0x54, 0xC6, 0x61, 0xFD, 0x01, 0x3F];

fn frame(extended_can_id: u32, buffer: [u8; 8]) -> CanBuffer {
    CanBuffer { extended_can_id, buffer }
}

#[test]
fn test_run_torque() {
    let cyber_gear = CyberGear::new(CAN_ID_CYBERGEAR_DEFAULT);
    let can_buffer = cyber_gear.run_torque(0);
    assert_eq!(can_buffer.extended_can_id, 0x0180007F);
    assert_eq!(can_buffer.buffer, [0; 8]);
}

#[test]
fn run_torque_saturates_at_both_ends() {
    let g = CyberGear::new(0x7F);
    assert_eq!(g.run_torque(i64::MAX).extended_can_id, 0x01FFFF7F);
    assert_eq!(g.run_torque(MAX_TORQUE).extended_can_id, 0x01FFFF7F);
    assert_eq!(g.run_torque(i64::MIN).extended_can_id, 0x0100007F);
    assert_eq!(g.run_torque(-MAX_TORQUE).extended_can_id, 0x0100007F);
}

#[test]
fn run_torque_with_param_packs_payload_high_byte_first() {
    let g = CyberGear::default();
    let b = g.run_torque_with_param(0, 1_000_000, -5_000_000, 30_000_000, 1_000_000);
    assert_eq!(b.extended_can_id, 0x0180007F);
    assert_eq!(b.buffer, [0x8A, 0x30, 0x6A, 0xAB, 0x0F, 0x5C, 0x33, 0x33]);
}

#[test]
fn run_torque_with_param_saturates_every_field() {
    let g = CyberGear::new(1);
    let b = g.run_torque_with_param(i64::MAX, i64::MAX, i64::MIN, i64::MAX, -1);
    assert_eq!(b.extended_can_id, 0x01FFFF01);
    assert_eq!(b.buffer, [0xFF, 0xFF, 0x00, 0x00, 0xFF, 0xFF, 0x00, 0x00]);
}

#[test]
fn simple_commands_carry_tag_and_device_id() {
    let g = CyberGear::new(0x15);
    let n = g.send_nothing();
    assert_eq!(n.extended_can_id, 0x00000015);
    assert_eq!(n.buffer, [0; 8]);
    let e = g.enable_torque();
    assert_eq!(e.extended_can_id, 0x03000015);
    assert_eq!(e.buffer, [0; 8]);
    let d = g.disable_torque();
    assert_eq!(d.extended_can_id, 0x04000015);
    assert_eq!(d.buffer, [0; 8]);
    let z = g.set_mechanical_zero();
    assert_eq!(z.extended_can_id, 0x06000015);
    assert_eq!(z.buffer, [1, 0, 0, 0, 0, 0, 0, 0]);
}

#[test]
fn change_can_id_puts_new_id_in_bits_16_to_23() {
    let g = CyberGear::new(0x7F);
    let b = g.change_can_id(0x22);
    assert_eq!(b.extended_can_id, 0x0722007F);
    assert_eq!(b.buffer, [0; 8]);
}

#[test]
fn read_parameter_has_no_low_byte_id() {
    let g = CyberGear::new(0x7F);
    let b = g.read_parameter(0x7005);
    assert_eq!(b.extended_can_id, 0x11007F00);
    assert_eq!(b.buffer, [0x70, 0x05, 0, 0, 0, 0, 0, 0]);
}

#[test]
fn write_parameter_is_unsupported() {
    let g = CyberGear::new(0x7F);
    assert!(matches!(g.write_parameter(0x7005, 1), Err(CanMotorError::Unsupported)));
}

#[test]
fn change_baudrate_sends_rate_code() {
    let g = CyberGear::new(0x7F);
    let b = g.change_baudrate(Baudrate::Bps500K);
    assert_eq!(b.extended_can_id, 0x16007F00);
    assert_eq!(b.buffer, [2, 0, 0, 0, 0, 0, 0, 0]);
    assert_eq!(Baudrate::Bps1M.code(), 1);
    assert_eq!(Baudrate::Bps250K.code(), 3);
    assert_eq!(Baudrate::Bps125K.code(), 4);
}

#[test]
fn identifiers_stay_within_29_bits() {
    for id in [0u8, 1, 0x7F, 0xFF] {
        let g = CyberGear::new(id);
        let frames = [
            g.send_nothing(),
            g.enable_torque(),
            g.disable_torque(),
            g.run_torque(i64::MAX),
            g.run_torque(i64::MIN),
            g.run_torque_with_param(i64::MAX, i64::MIN, i64::MAX, i64::MIN, i64::MAX),
            g.set_mechanical_zero(),
            g.change_can_id(0xFF),
            g.read_parameter(0xFFFF),
            g.change_baudrate(Baudrate::Bps125K),
        ];
        for f in frames {
            assert!(f.extended_can_id <= 0x1FFF_FFFF);
            assert!(f.as_socketcan_can_frame().is_some());
        }
    }
}

#[test]
fn test_feedback() {
    let mut feedback = Feedback::default();
    let r = feedback.from_can_buffer(&frame(REFERENCE_ID, REFERENCE_DATA));
    assert_eq!(r, Ok(()));
    assert!(!feedback.is_not_calibrated);
    assert!(!feedback.is_hall_encoder_error);
    assert!(!feedback.is_magnet_encoder_error);
    assert!(!feedback.is_overheating);
    assert!(!feedback.is_overcurrent);
    assert!(!feedback.is_undervoltage);
    // bits 22-23 of 0x02807F00 hold 2
    assert_eq!(feedback.mode, MotorModeFeedback::Motor);
    // payload words are read high byte first
    assert_eq!(feedback.angle, -1_026_824);
    assert_eq!(feedback.velocity, -10_130_922);
    assert_eq!(feedback.torque, -2_813_458);
    assert_eq!(feedback.temperature, 31_900_000);
}

#[test]
fn decode_fault_flags_and_modes() {
    let mut feedback = Feedback::default();
    let r = feedback.from_can_buffer(&frame(0x023F0000 | 0x00400000, [0; 8]));
    assert_eq!(r, Ok(()));
    assert!(feedback.is_not_calibrated);
    assert!(feedback.is_hall_encoder_error);
    assert!(feedback.is_magnet_encoder_error);
    assert!(feedback.is_overheating);
    assert!(feedback.is_overcurrent);
    assert!(feedback.is_undervoltage);
    assert_eq!(feedback.mode, MotorModeFeedback::Calibration);
    assert_eq!(feedback.angle, -12_566_371);
    assert_eq!(feedback.velocity, -30_000_000);
    assert_eq!(feedback.torque, -12_000_000);
    assert_eq!(feedback.temperature, 0);

    let r = feedback.from_can_buffer(&frame(0x02010000 | 0x00C00000, [0xFF; 8]));
    assert_eq!(r, Ok(()));
    assert!(!feedback.is_not_calibrated);
    assert!(feedback.is_undervoltage);
    assert_eq!(feedback.mode, MotorModeFeedback::Reset);
    assert_eq!(feedback.angle, 12_566_371);
    assert_eq!(feedback.velocity, 30_000_000);
    assert_eq!(feedback.torque, 12_000_000);
    assert_eq!(feedback.temperature, 65535 * 100_000);
}

#[test]
fn decode_unknown_tag_leaves_snapshot() {
    let mut feedback = Feedback::default();
    feedback.from_can_buffer(&frame(REFERENCE_ID, REFERENCE_DATA)).unwrap();
    let before = format!("{:?}", feedback);
    for id in [0x0000_0000u32, 0x0100_7F00, 0x0380_7F00, 0x1280_7F00, 0x1680_7F00, 0xFF80_7F00] {
        assert_eq!(feedback.from_can_buffer(&frame(id, [0xAA; 8])), Ok(()));
        assert_eq!(format!("{:?}", feedback), before);
    }
}

#[test]
fn decode_parameter_and_failure_frames_is_unsupported() {
    let mut feedback = Feedback::default();
    feedback.from_can_buffer(&frame(REFERENCE_ID, REFERENCE_DATA)).unwrap();
    let before = format!("{:?}", feedback);
    for id in [0x1100_7F00u32, 0x1500_7F00] {
        assert_eq!(
            feedback.from_can_buffer(&frame(id, [0xAA; 8])),
            Err(CanMotorError::Unsupported)
        );
        assert_eq!(format!("{:?}", feedback), before);
    }
}

#[test]
fn controller_keeps_latest_snapshot() {
    let mut g = CyberGear::default();
    assert_eq!(g.feedback().angle, 0);
    assert_eq!(g.receive(&frame(REFERENCE_ID, REFERENCE_DATA)), Ok(()));
    assert_eq!(g.feedback().angle, -1_026_824);
    assert_eq!(g.send_nothing().extended_can_id, 0x7F);
}

#[test]
fn encoded_payload_decodes_within_one_step() {
    let g = CyberGear::new(0x7F);
    let cmd = g.run_torque_with_param(0, 1_000_000, -5_000_000, 0, 0);
    let mut feedback = Feedback::default();
    feedback.from_can_buffer(&frame(0x0200_0000, cmd.buffer)).unwrap();
    assert_eq!(feedback.angle, 1_000_363);
    assert!((feedback.angle - 1_000_000).abs() <= 2 * 12_566_371 / 65535 + 1);
    assert!((feedback.velocity + 5_000_000).abs() <= 60_000_000 / 65535 + 1);

    let t = g.run_torque(3_000_000);
    let word = ((t.extended_can_id >> 8) & 0xFFFF) as u16;
    let mut data = [0u8; 8];
    data[4..6].copy_from_slice(&word.to_be_bytes());
    feedback.from_can_buffer(&frame(0x0200_0000, data)).unwrap();
    assert!((feedback.torque - 3_000_000).abs() <= 24_000_000 / 65535 + 1);
}
