use can_motor_rs::robstride::Address;

#[test]
fn run_mode_serializes_to_first_byte() {
    assert_eq!(Address::RunMode(1).as_bytes(), [1, 0, 0, 0]);
    assert_eq!(Address::RunMode(3).as_bytes(), [3, 0, 0, 0]);
}

#[test]
fn address_ignores_value() {
    assert_eq!(Address::RunMode(1).address(), 0x7005);
    assert_eq!(Address::RunMode(0).address(), 0x7005);
    assert_eq!(Address::RunMode(255).address(), 0x7005);
    let a: u16 = Address::RunMode(1).into();
    assert_eq!(a, 0x7005);
    assert_eq!(u16::from(Address::IqReference(0)), 0x7006);
    assert_eq!(Address::VelocityFilterGain(7.5f32.to_bits()).address(), 0x7021);
    assert_eq!(Address::VBus(0).address(), 0x701C);
}

#[test]
fn float_entry_serializes_little_endian() {
    let a = Address::IqReference(5.0f32.to_bits());
    let bytes = a.as_bytes();
    assert_eq!(bytes, 5.0f32.to_le_bytes());
    assert_eq!(bytes, [0x00, 0x00, 0xA0, 0x40]);
    assert_eq!(f32::from_le_bytes(bytes), 5.0);
}

#[test]
fn float_entries_round_trip() {
    for v in [-90.0f32, -0.005, 0.0, 0.06, 30.0, 120.0] {
        let b = Address::LimitTorque(v.to_bits()).as_bytes();
        assert_eq!(f32::from_le_bytes(b), v);
    }
}
