//! Parameter table: each entry is bound to a 16-bit address and carries
//! either a byte or a 32-bit float, the float as its IEEE-754 bit pattern.
use vstd::prelude::*;

verus! {

/// Little-endian bytes of `x`.
pub open spec fn le_bytes(x: u32) -> Seq<u8> {
    seq![
        (x % 0x100) as u8,
        (x / 0x100 % 0x100) as u8,
        (x / 0x1_0000 % 0x100) as u8,
        (x / 0x100_0000) as u8,
    ]
}

/// The integer whose little-endian bytes are the first four of `b`.
pub open spec fn le_value(b: Seq<u8>) -> int {
    b[0] + 0x100 * b[1] + 0x1_0000 * b[2] + 0x100_0000 * b[3]
}

/// One parameter and the value it is set to. A float-shaped entry holds the
/// bit pattern of an `f32` (`f32::to_bits`).
#[derive(Debug, Clone, Copy, PartialEq, Eq, Structural)]
pub enum Address {
    /// 0: operation control, 1: position, 2: velocity, 3: current mode.
    RunMode(u8),
    /// Current mode Iq command, -90 to 90 A.
    IqReference(u32),
    /// Velocity mode velocity command, -15 to 15 rad/s.
    VelocityReference(u32),
    /// Torque limit, 0 to 120 Nm.
    LimitTorque(u32),
    /// Current loop Kp; default 0.05.
    CurrentKp(u32),
    /// Current loop Ki; default 0.05.
    CurrentKi(u32),
    /// Current filtering coefficient, 0 to 1.0; default 0.06.
    CurrentFilterGain(u32),
    /// Position mode angle command, rad.
    PositionCommand(u32),
    /// Position mode velocity limit, 0 to 15 rad/s.
    LimitVelocity(u32),
    /// Velocity and position mode current limit, 0 to 90 A.
    LimitCurrent(u32),
    /// Load end mechanical angle, rad.
    MechanicalPosition(u32),
    /// Filtered Iq, -90 to 90 A.
    IqF(u32),
    /// Load end velocity, -15 to 15 rad/s.
    MechanicalVelocity(u32),
    /// Bus voltage, V.
    VBus(u32),
    /// Position loop Kp; default 30.
    PositionKp(u32),
    /// Velocity loop Kp; default 5.
    VelocityKp(u32),
    /// Velocity loop Ki; default 0.005.
    VelocityKi(u32),
    /// Velocity filter gain; default 0.1.
    VelocityFilterGain(u32),
}

impl Address {
    /// The address of the parameter, whatever the value.
    pub open spec fn address_spec(self) -> u16 {
        match self {
            Address::RunMode(_) => 0x7005,
            Address::IqReference(_) => 0x7006,
            Address::VelocityReference(_) => 0x700A,
            Address::LimitTorque(_) => 0x700B,
            Address::CurrentKp(_) => 0x7010,
            Address::CurrentKi(_) => 0x7011,
            Address::CurrentFilterGain(_) => 0x7014,
            Address::PositionCommand(_) => 0x7016,
            Address::LimitVelocity(_) => 0x7017,
            Address::LimitCurrent(_) => 0x7018,
            Address::MechanicalPosition(_) => 0x7019,
            Address::IqF(_) => 0x701A,
            Address::MechanicalVelocity(_) => 0x701B,
            Address::VBus(_) => 0x701C,
            Address::PositionKp(_) => 0x701E,
            Address::VelocityKp(_) => 0x701F,
            Address::VelocityKi(_) => 0x7020,
            Address::VelocityFilterGain(_) => 0x7021,
        }
    }

    /// The bit pattern of a float-shaped entry; `None` for the byte-shaped one.
    pub open spec fn float_bits(self) -> Option<u32> {
        match self {
            Address::RunMode(_) => None,
            Address::IqReference(bits) => Some(bits),
            Address::VelocityReference(bits) => Some(bits),
            Address::LimitTorque(bits) => Some(bits),
            Address::CurrentKp(bits) => Some(bits),
            Address::CurrentKi(bits) => Some(bits),
            Address::CurrentFilterGain(bits) => Some(bits),
            Address::PositionCommand(bits) => Some(bits),
            Address::LimitVelocity(bits) => Some(bits),
            Address::LimitCurrent(bits) => Some(bits),
            Address::MechanicalPosition(bits) => Some(bits),
            Address::IqF(bits) => Some(bits),
            Address::MechanicalVelocity(bits) => Some(bits),
            Address::VBus(bits) => Some(bits),
            Address::PositionKp(bits) => Some(bits),
            Address::VelocityKp(bits) => Some(bits),
            Address::VelocityKi(bits) => Some(bits),
            Address::VelocityFilterGain(bits) => Some(bits),
        }
    }

    /// The four bytes that carry the value: a byte value in byte 0 and zeros
    /// after it, a float as its bit pattern, little-endian.
    pub open spec fn bytes_spec(self) -> Seq<u8> {
        match self {
            Address::RunMode(v) => seq![v, 0, 0, 0],
            Address::IqReference(bits) => le_bytes(bits),
            Address::VelocityReference(bits) => le_bytes(bits),
            Address::LimitTorque(bits) => le_bytes(bits),
            Address::CurrentKp(bits) => le_bytes(bits),
            Address::CurrentKi(bits) => le_bytes(bits),
            Address::CurrentFilterGain(bits) => le_bytes(bits),
            Address::PositionCommand(bits) => le_bytes(bits),
            Address::LimitVelocity(bits) => le_bytes(bits),
            Address::LimitCurrent(bits) => le_bytes(bits),
            Address::MechanicalPosition(bits) => le_bytes(bits),
            Address::IqF(bits) => le_bytes(bits),
            Address::MechanicalVelocity(bits) => le_bytes(bits),
            Address::VBus(bits) => le_bytes(bits),
            Address::PositionKp(bits) => le_bytes(bits),
            Address::VelocityKp(bits) => le_bytes(bits),
            Address::VelocityKi(bits) => le_bytes(bits),
            Address::VelocityFilterGain(bits) => le_bytes(bits),
        }
    }

    fn le_array(x: u32) -> (r: [u8; 4])
        ensures
            r@ == le_bytes(x),
    {
        let r: [u8; 4] = [
            (x % 0x100) as u8,
            (x / 0x100 % 0x100) as u8,
            (x / 0x1_0000 % 0x100) as u8,
            (x / 0x100_0000) as u8,
        ];
        assert(r@ =~= le_bytes(x));
        r
    }

    /// The value of the entry as the four bytes written to the parameter.
    pub fn as_bytes(&self) -> (r: [u8; 4])
        ensures
            r@ == self.bytes_spec(),
    {
        let r: [u8; 4] = match self {
            Address::RunMode(inner) => [*inner, 0, 0, 0],
            Address::IqReference(inner) => Self::le_array(*inner),
            Address::VelocityReference(inner) => Self::le_array(*inner),
            Address::LimitTorque(inner) => Self::le_array(*inner),
            Address::CurrentKp(inner) => Self::le_array(*inner),
            Address::CurrentKi(inner) => Self::le_array(*inner),
            Address::CurrentFilterGain(inner) => Self::le_array(*inner),
            Address::PositionCommand(inner) => Self::le_array(*inner),
            Address::LimitVelocity(inner) => Self::le_array(*inner),
            Address::LimitCurrent(inner) => Self::le_array(*inner),
            Address::MechanicalPosition(inner) => Self::le_array(*inner),
            Address::IqF(inner) => Self::le_array(*inner),
            Address::MechanicalVelocity(inner) => Self::le_array(*inner),
            Address::VBus(inner) => Self::le_array(*inner),
            Address::PositionKp(inner) => Self::le_array(*inner),
            Address::VelocityKp(inner) => Self::le_array(*inner),
            Address::VelocityKi(inner) => Self::le_array(*inner),
            Address::VelocityFilterGain(inner) => Self::le_array(*inner),
        };
        proof {
            if let Address::RunMode(v) = *self {
                assert(r@ =~= seq![v, 0, 0, 0]);
            }
        }
        r
    }

    /// The address of the parameter.
    pub fn address(&self) -> (r: u16)
        ensures
            r == self.address_spec(),
    {
        match self {
            Address::RunMode(_) => 0x7005,
            Address::IqReference(_) => 0x7006,
            Address::VelocityReference(_) => 0x700A,
            Address::LimitTorque(_) => 0x700B,
            Address::CurrentKp(_) => 0x7010,
            Address::CurrentKi(_) => 0x7011,
            Address::CurrentFilterGain(_) => 0x7014,
            Address::PositionCommand(_) => 0x7016,
            Address::LimitVelocity(_) => 0x7017,
            Address::LimitCurrent(_) => 0x7018,
            Address::MechanicalPosition(_) => 0x7019,
            Address::IqF(_) => 0x701A,
            Address::MechanicalVelocity(_) => 0x701B,
            Address::VBus(_) => 0x701C,
            Address::PositionKp(_) => 0x701E,
            Address::VelocityKp(_) => 0x701F,
            Address::VelocityKi(_) => 0x7020,
            Address::VelocityFilterGain(_) => 0x7021,
        }
    }
}

impl From<Address> for u16 {
    fn from(a: Address) -> (r: u16)
        ensures
            r == a.address_spec(),
    {
        a.address()
    }
}

impl vstd::std_specs::convert::FromSpecImpl<Address> for u16 {
    open spec fn obeys_from_spec() -> bool {
        true
    }

    open spec fn from_spec(a: Address) -> u16 {
        a.address_spec()
    }
}

/// Reading the four bytes of a float-shaped entry back as a little-endian
/// integer gives the bit pattern it carries, so the float comes back exactly.
pub proof fn lemma_float_bytes_round_trip(a: Address)
    requires
        a.float_bits() is Some,
    ensures
        le_value(a.bytes_spec()) == a.float_bits()->Some_0,
{
    let x = a.float_bits()->Some_0;
    assert(a.bytes_spec() == le_bytes(x));
    assert(le_value(le_bytes(x)) == x) by (nonlinear_arith);
}

} // verus!
