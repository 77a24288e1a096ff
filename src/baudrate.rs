use vstd::prelude::*;

verus! {

/// CAN bit rates that an actuator can be switched to.
///
/// The rate codes 1 to 4 are placeholders of this crate: the wire table of
/// rate codes is not defined here.
#[derive(Debug, Clone, Copy, PartialEq, Eq, Structural)]
pub enum Baudrate {
    Bps1M,
    Bps500K,
    Bps250K,
    Bps125K,
}

impl Baudrate {
    pub open spec fn code_spec(self) -> u8 {
        match self {
            Baudrate::Bps1M => 1,
            Baudrate::Bps500K => 2,
            Baudrate::Bps250K => 3,
            Baudrate::Bps125K => 4,
        }
    }

    /// The rate code sent on the wire.
    pub fn code(self) -> (r: u8)
        ensures
            r == self.code_spec(),
    {
        match self {
            Baudrate::Bps1M => 1,
            Baudrate::Bps500K => 2,
            Baudrate::Bps250K => 3,
            Baudrate::Bps125K => 4,
        }
    }
}

} // verus!
