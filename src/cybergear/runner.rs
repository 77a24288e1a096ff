//! Command encoder: one frame per command, built from the target device id
//! and the command's parameters.
use crate::baudrate::Baudrate;
use crate::can_buffer::CanBuffer;
use crate::cybergear::feedback::Feedback;
use crate::error::CanMotorError;
use crate::scaling::{scale_to_u16, scale_to_u16_spec};
use vstd::prelude::*;

verus! {

/// Device id of an actuator that has not been given another one.
pub const CAN_ID_CYBERGEAR_DEFAULT: u8 = 0x7F;

pub const CMD_ID_NOTHING: u32 = 0;
pub const CMD_ID_RUN_TORQUE: u32 = 1;
pub const CMD_ID_FEEDBACK: u32 = 2;
pub const CMD_ID_TORQUE_ENABLE: u32 = 3;
pub const CMD_ID_TORQUE_DISABLE: u32 = 4;
pub const CMD_ID_SET_MECHANICAL_ZERO: u32 = 6;
pub const CMD_ID_CHANGE_CAN_ID: u32 = 7;
pub const CMD_ID_READ_PARAMETER: u32 = 17;
pub const CMD_ID_WRITE_PARAMETER: u32 = 18;
pub const CMD_ID_FAILURE_FEEDBACK: u32 = 21;
pub const CMD_ID_CHANGE_BAUDRATE: u32 = 22;

/// Bit position of the command tag in the identifier.
pub const TAG_SHIFT: u32 = 24;
/// Bit position of the 16-bit middle field in the identifier.
pub const MID_SHIFT: u32 = 8;

/// Angle range, micro-radians: 4 pi rad.
pub const MAX_ANGLE: i64 = 12_566_371;
/// Velocity range, micro-radians per second: 30 rad/s.
pub const MAX_VELOCITY: i64 = 30_000_000;
/// Torque range, micro-newton-metres: 12 Nm.
pub const MAX_TORQUE: i64 = 12_000_000;
/// Largest position gain, in millionths: 500.
pub const MAX_P_GAIN: i64 = 500_000_000;
/// Largest damping gain, in millionths: 5.
pub const MAX_D_GAIN: i64 = 5_000_000;

/// Identifier with command tag `tag`, 16-bit middle field `mid` (bits 8-23)
/// and low byte `low`.
pub open spec fn frame_id(tag: u32, mid: int, low: int) -> int {
    tag * 0x100_0000 + mid * 0x100 + low
}

/// An all-zero payload.
pub open spec fn zero_payload() -> Seq<u8> {
    Seq::new(8, |i: int| 0u8)
}

/// A payload whose first byte is `b` and whose other bytes are zero.
pub open spec fn first_byte_payload(b: u8) -> Seq<u8> {
    zero_payload().update(0, b)
}

/// A payload of four 16-bit words, each high byte first.
pub open spec fn be_words_payload(w0: u16, w1: u16, w2: u16, w3: u16) -> Seq<u8> {
    seq![
        (w0 / 256) as u8, (w0 % 256) as u8,
        (w1 / 256) as u8, (w1 % 256) as u8,
        (w2 / 256) as u8, (w2 % 256) as u8,
        (w3 / 256) as u8, (w3 % 256) as u8,
    ]
}

/// Every identifier with a tag of the encoder's table, a 16-bit middle field
/// and a low byte fits in the 29 bits of an extended identifier.
pub proof fn lemma_frame_id_fits(tag: u32, mid: int, low: int)
    requires
        tag <= CMD_ID_CHANGE_BAUDRATE,
        0 <= mid <= 0xFFFF,
        0 <= low <= 0xFF,
    ensures
        0 <= frame_id(tag, mid, low) <= crate::can_buffer::EXTENDED_ID_MAX,
{
}

/// Packs the identifier fields; the result fits in 29 bits.
fn pack_id(tag: u32, mid: u32, low: u32) -> (r: u32)
    requires
        tag <= CMD_ID_CHANGE_BAUDRATE,
        mid <= 0xFFFF,
        low <= 0xFF,
    ensures
        r == frame_id(tag, mid as int, low as int),
        r <= crate::can_buffer::EXTENDED_ID_MAX,
{
    let r = tag << TAG_SHIFT | mid << MID_SHIFT | low;
    assert(r == tag * 0x100_0000 + mid * 0x100 + low) by (bit_vector)
        requires
            tag <= 22,
            mid <= 0xFFFF,
            low <= 0xFF,
            r == tag << 24u32 | mid << 8u32 | low,
    ;
    proof {
        lemma_frame_id_fits(tag, mid as int, low as int);
    }
    r
}

fn frame(extended_can_id: u32, buffer: [u8; 8]) -> (r: CanBuffer)
    ensures
        r.extended_can_id == extended_can_id,
        r.buffer == buffer,
{
    CanBuffer { extended_can_id, buffer }
}

/// One actuator on the bus: its device id and its latest telemetry.
#[derive(Debug)]
pub struct CyberGear {
    target_id: u8,
    feedback: Feedback,
}

impl CyberGear {
    /// The device id that commands are addressed to.
    pub closed spec fn device_id(&self) -> u8 {
        self.target_id
    }

    /// The latest telemetry snapshot.
    pub closed spec fn snapshot(&self) -> Feedback {
        self.feedback
    }

    pub fn new(target_id: u8) -> (r: Self)
        ensures
            r.device_id() == target_id,
            r.snapshot() == Feedback::zeroed(),
    {
        Self { target_id, feedback: Feedback::default() }
    }

    /// A frame that only asks for feedback.
    pub fn send_nothing(&self) -> (r: CanBuffer)
        ensures
            r.extended_can_id == frame_id(CMD_ID_NOTHING, 0, self.device_id() as int),
            r.buffer@ == zero_payload(),
            r.is_extended_id(),
    {
        let id = pack_id(CMD_ID_NOTHING, 0, self.target_id as u32);
        let buffer = [0u8; 8];
        assert(buffer@ =~= zero_payload());
        frame(id, buffer)
    }

    pub fn enable_torque(&self) -> (r: CanBuffer)
        ensures
            r.extended_can_id == frame_id(CMD_ID_TORQUE_ENABLE, 0, self.device_id() as int),
            r.buffer@ == zero_payload(),
            r.is_extended_id(),
    {
        let id = pack_id(CMD_ID_TORQUE_ENABLE, 0, self.target_id as u32);
        let buffer = [0u8; 8];
        assert(buffer@ =~= zero_payload());
        frame(id, buffer)
    }

    pub fn disable_torque(&self) -> (r: CanBuffer)
        ensures
            r.extended_can_id == frame_id(CMD_ID_TORQUE_DISABLE, 0, self.device_id() as int),
            r.buffer@ == zero_payload(),
            r.is_extended_id(),
    {
        let id = pack_id(CMD_ID_TORQUE_DISABLE, 0, self.target_id as u32);
        let buffer = [0u8; 8];
        assert(buffer@ =~= zero_payload());
        frame(id, buffer)
    }

    /// Torque command; `torque` in micro-newton-metres, saturated to
    /// `[-MAX_TORQUE, MAX_TORQUE]` and carried in the identifier.
    pub fn run_torque(&self, torque: i64) -> (r: CanBuffer)
        ensures
            r.extended_can_id == frame_id(
                CMD_ID_RUN_TORQUE,
                scale_to_u16_spec(torque as int, -MAX_TORQUE, MAX_TORQUE as int),
                self.device_id() as int,
            ),
            r.buffer@ == zero_payload(),
            r.is_extended_id(),
    {
        let t = scale_to_u16(torque, -MAX_TORQUE, MAX_TORQUE);
        let id = pack_id(CMD_ID_RUN_TORQUE, t as u32, self.target_id as u32);
        let buffer = [0u8; 8];
        assert(buffer@ =~= zero_payload());
        frame(id, buffer)
    }

    /// Torque command with position and velocity targets and gains. The
    /// torque goes in the identifier as for `run_torque`; the angle
    /// (micro-radians), velocity (micro-radians per second), position gain
    /// and damping gain (millionths) go in the payload, each saturated to its
    /// range and written high byte first.
    pub fn run_torque_with_param(
        &self,
        torque: i64,
        target_angle: i64,
        target_velocity: i64,
        p_gain: i64,
        d_gain: i64,
    ) -> (r: CanBuffer)
        ensures
            r.extended_can_id == frame_id(
                CMD_ID_RUN_TORQUE,
                scale_to_u16_spec(torque as int, -MAX_TORQUE, MAX_TORQUE as int),
                self.device_id() as int,
            ),
            r.buffer@ == be_words_payload(
                scale_to_u16_spec(target_angle as int, -MAX_ANGLE, MAX_ANGLE as int) as u16,
                scale_to_u16_spec(target_velocity as int, -MAX_VELOCITY, MAX_VELOCITY as int) as u16,
                scale_to_u16_spec(p_gain as int, 0, MAX_P_GAIN as int) as u16,
                scale_to_u16_spec(d_gain as int, 0, MAX_D_GAIN as int) as u16,
            ),
            r.is_extended_id(),
    {
        let t = scale_to_u16(torque, -MAX_TORQUE, MAX_TORQUE);
        let id = pack_id(CMD_ID_RUN_TORQUE, t as u32, self.target_id as u32);
        let a = scale_to_u16(target_angle, -MAX_ANGLE, MAX_ANGLE);
        let v = scale_to_u16(target_velocity, -MAX_VELOCITY, MAX_VELOCITY);
        let p = scale_to_u16(p_gain, 0, MAX_P_GAIN);
        let d = scale_to_u16(d_gain, 0, MAX_D_GAIN);
        let buffer: [u8; 8] = [
            (a / 256) as u8,
            (a % 256) as u8,
            (v / 256) as u8,
            (v % 256) as u8,
            (p / 256) as u8,
            (p % 256) as u8,
            (d / 256) as u8,
            (d % 256) as u8,
        ];
        assert(buffer@ =~= be_words_payload(a, v, p, d));
        frame(id, buffer)
    }

    /// Makes the current position the mechanical zero.
    pub fn set_mechanical_zero(&self) -> (r: CanBuffer)
        ensures
            r.extended_can_id == frame_id(CMD_ID_SET_MECHANICAL_ZERO, 0, self.device_id() as int),
            r.buffer@ == first_byte_payload(1),
            r.is_extended_id(),
    {
        let id = pack_id(CMD_ID_SET_MECHANICAL_ZERO, 0, self.target_id as u32);
        let mut buffer = [0u8; 8];
        buffer[0] = 1;
        assert(buffer@ =~= first_byte_payload(1));
        frame(id, buffer)
    }

    /// Gives the actuator the device id `new_id` (bits 16-23).
    pub fn change_can_id(&self, new_id: u8) -> (r: CanBuffer)
        ensures
            r.extended_can_id == frame_id(
                CMD_ID_CHANGE_CAN_ID,
                new_id as int * 0x100,
                self.device_id() as int,
            ),
            r.buffer@ == zero_payload(),
            r.is_extended_id(),
    {
        let id = pack_id(CMD_ID_CHANGE_CAN_ID, (new_id as u32) * 0x100, self.target_id as u32);
        let buffer = [0u8; 8];
        assert(buffer@ =~= zero_payload());
        frame(id, buffer)
    }

    /// Asks for the parameter at `address`. The device id goes in bits 8-15
    /// only; the address is the first two payload bytes, high byte first.
    pub fn read_parameter(&self, address: u16) -> (r: CanBuffer)
        ensures
            r.extended_can_id == frame_id(CMD_ID_READ_PARAMETER, self.device_id() as int, 0),
            r.buffer@ == zero_payload().update(0, (address / 256) as u8).update(
                1,
                (address % 256) as u8,
            ),
            r.is_extended_id(),
    {
        let id = pack_id(CMD_ID_READ_PARAMETER, self.target_id as u32, 0);
        let mut buffer = [0u8; 8];
        buffer[0] = (address / 256) as u8;
        buffer[1] = (address % 256) as u8;
        assert(buffer@ =~= zero_payload().update(0, (address / 256) as u8).update(
            1,
            (address % 256) as u8,
        ));
        frame(id, buffer)
    }

    /// Writing a parameter has no defined layout: always `Unsupported`.
    pub fn write_parameter(&self, _address: u16, _value: u16) -> (r: Result<CanBuffer, CanMotorError>)
        ensures
            r == Err::<CanBuffer, CanMotorError>(CanMotorError::Unsupported),
    {
        Err(CanMotorError::Unsupported)
    }

    /// Switches the actuator to another bit rate. The device id goes in bits
    /// 8-15 only; the rate code is the first payload byte.
    pub fn change_baudrate(&self, baudrate: Baudrate) -> (r: CanBuffer)
        ensures
            r.extended_can_id == frame_id(CMD_ID_CHANGE_BAUDRATE, self.device_id() as int, 0),
            r.buffer@ == first_byte_payload(baudrate.code_spec()),
            r.is_extended_id(),
    {
        let id = pack_id(CMD_ID_CHANGE_BAUDRATE, self.target_id as u32, 0);
        let mut buffer = [0u8; 8];
        buffer[0] = baudrate.code();
        assert(buffer@ =~= first_byte_payload(baudrate.code_spec()));
        frame(id, buffer)
    }

    /// Decodes an inbound frame into the telemetry snapshot.
    pub fn receive(&mut self, buffer: &CanBuffer) -> (r: Result<(), CanMotorError>)
        ensures
            (r, final(self).snapshot()) == old(self).snapshot().decode_spec(*buffer),
            final(self).device_id() == old(self).device_id(),
    {
        self.feedback.from_can_buffer(buffer)
    }

    pub fn feedback(&self) -> (r: &Feedback)
        ensures
            *r == self.snapshot(),
    {
        &self.feedback
    }
}

impl Default for CyberGear {
    fn default() -> (r: Self)
        ensures
            r.device_id() == CAN_ID_CYBERGEAR_DEFAULT,
            r.snapshot() == Feedback::zeroed(),
    {
        Self { target_id: CAN_ID_CYBERGEAR_DEFAULT, feedback: Feedback::default() }
    }
}

} // verus!
