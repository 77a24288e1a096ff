use can_motor_rs::CanBuffer;
use embedded_can::{ExtendedId, Frame, StandardId};
use socketcan::CanFrame;

#[test]
fn from_parts_pads_with_zeros() {
    let b = CanBuffer::from_parts(0x1234, &[9, 8, 7]);
    assert_eq!(b.extended_can_id, 0x1234);
    assert_eq!(b.buffer, [9, 8, 7, 0, 0, 0, 0, 0]);
}

#[test]
fn to_socketcan_rejects_wide_identifiers() {
    let ok = CanBuffer { extended_can_id: 0x1FFF_FFFF, buffer: [1, 2, 3, 4, 5, 6, 7, 8] };
    let frame = ok.as_socketcan_can_frame().unwrap();
    assert!(frame.is_extended());
    assert_eq!(frame.data(), &[1, 2, 3, 4, 5, 6, 7, 8]);
    let wide = CanBuffer { extended_can_id: 0x2000_0000, buffer: [0; 8] };
    assert!(wide.as_socketcan_can_frame().is_none());
}

#[test]
fn from_socketcan_round_trip() {
    let frame = CanFrame::new(ExtendedId::new(0x0280_7F00).unwrap(), &[1, 2, 3]).unwrap();
    let b = CanBuffer::from_socketcan_can_frame(frame).unwrap();
    assert_eq!(b.extended_can_id, 0x0280_7F00);
    assert_eq!(b.buffer, [1, 2, 3, 0, 0, 0, 0, 0]);

    let full = CanBuffer { extended_can_id: 0x0180_007F, buffer: [8, 7, 6, 5, 4, 3, 2, 1] };
    let back = CanBuffer::from_socketcan_can_frame(full.as_socketcan_can_frame().unwrap()).unwrap();
    assert_eq!(back.extended_can_id, full.extended_can_id);
    assert_eq!(back.buffer, full.buffer);
}

#[test]
fn from_socketcan_rejects_standard_frames() {
    let frame = CanFrame::new(StandardId::new(0x123).unwrap(), &[1]).unwrap();
    assert!(CanBuffer::from_socketcan_can_frame(frame).is_none());
}

#[test]
fn from_socketcan_rejects_oversized_length_code() {
    let mut raw = socketcan::frame::can_frame_default();
    raw.can_id = 0x8280_7F00;
    raw.can_dlc = 9;
    let frame = CanFrame::from(raw);
    assert!(frame.is_extended());
    assert!(CanBuffer::from_socketcan_can_frame(frame).is_none());
}
