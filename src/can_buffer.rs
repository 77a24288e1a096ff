//! Transport-neutral value of one extended CAN frame, and its conversion to
//! and from socketcan's frame type.
use embedded_can::{ExtendedId, Id};
use socketcan::CanFrame;
use vstd::prelude::*;

verus! {

/// Largest identifier that fits in the 29 bits of an extended CAN identifier.
pub const EXTENDED_ID_MAX: u32 = 0x1FFF_FFFF;

#[verifier::external_type_specification]
#[verifier::external_body]
pub struct ExExtendedId(ExtendedId);

#[verifier::external_type_specification]
#[verifier::external_body]
pub struct ExCanFrame(CanFrame);

/// The raw value of an extended identifier.
pub uninterp spec fn extended_id_raw(id: ExtendedId) -> u32;

/// The identifier of a frame in extended format, `None` for a standard one.
pub uninterp spec fn frame_extended_id(frame: CanFrame) -> Option<u32>;

/// The payload bytes that a frame hands out.
pub uninterp spec fn frame_payload(frame: CanFrame) -> Seq<u8>;

/// The data length code stored in a frame.
pub uninterp spec fn frame_dlc(frame: CanFrame) -> usize;

/// Relies on `embedded_can::ExtendedId::new`: an identifier is made exactly
/// when the raw value fits in 29 bits, and it holds that value.
pub assume_specification[ ExtendedId::new ](raw: u32) -> (r: Option<ExtendedId>)
    ensures
        r.is_some() <==> raw <= 0x1FFF_FFFF,
        r matches Some(id) ==> extended_id_raw(id) == raw,
;

/// Relies on `embedded_can::Frame::new` as socketcan implements it for
/// `CanFrame`: for eight bytes a data frame is always built, in extended
/// format with the raw value of `id`, with length code 8 and those bytes as
/// its payload.
#[verifier::external_body]
fn new_data_frame(id: ExtendedId, data: &[u8; 8]) -> (r: Option<CanFrame>)
    ensures
        r is Some,
        r matches Some(f) ==> frame_extended_id(f) == Some(extended_id_raw(id)),
        r matches Some(f) ==> frame_payload(f) == data@,
        r matches Some(f) ==> frame_dlc(f) == 8,
{
    <CanFrame as embedded_can::Frame>::new(id, data)
}

/// Relies on `embedded_can::Frame::id` as socketcan implements it for
/// `CanFrame`, and on `ExtendedId::as_raw`: the raw identifier of a frame in
/// extended format (socketcan masks it to 29 bits), `None` for a standard one.
#[verifier::external_body]
fn extended_id_of(frame: &CanFrame) -> (r: Option<u32>)
    ensures
        r == frame_extended_id(*frame),
        r matches Some(id) ==> id <= 0x1FFF_FFFF,
{
    match <CanFrame as embedded_can::Frame>::id(frame) {
        Id::Extended(id) => Some(id.as_raw()),
        Id::Standard(_) => None,
    }
}

/// Relies on `embedded_can::Frame::dlc` as socketcan implements it for
/// `CanFrame`: the stored data length code, read without slicing.
#[verifier::external_body]
fn dlc_of(frame: &CanFrame) -> (r: usize)
    ensures
        r == frame_dlc(*frame),
{
    <CanFrame as embedded_can::Frame>::dlc(frame)
}

/// Relies on `embedded_can::Frame::data` as socketcan implements it for
/// `CanFrame`: with a length code of at most 8 it slices within the frame's
/// eight bytes and hands out at most eight.
#[verifier::external_body]
fn payload_of(frame: &CanFrame) -> (r: Vec<u8>)
    requires
        frame_dlc(*frame) <= 8,
    ensures
        r@ == frame_payload(*frame),
        r@.len() <= 8,
{
    <CanFrame as embedded_can::Frame>::data(frame).to_vec()
}

/// One CAN frame: an identifier and an eight-byte payload.
#[derive(Debug, Clone, Copy)]
pub struct CanBuffer {
    pub extended_can_id: u32,
    pub buffer: [u8; 8],
}

impl CanBuffer {
    /// The identifier fits in 29 bits, so the frame can go on the bus.
    pub open spec fn is_extended_id(self) -> bool {
        self.extended_can_id <= EXTENDED_ID_MAX
    }

    /// Byte `i` of a payload `data` padded with zeros to eight bytes.
    pub open spec fn padded(data: Seq<u8>, i: int) -> u8 {
        if i < data.len() {
            data[i]
        } else {
            0
        }
    }

    /// A frame with identifier `extended_can_id` whose payload is `data`
    /// followed by zeros.
    pub fn from_parts(extended_can_id: u32, data: &[u8]) -> (r: CanBuffer)
        requires
            data@.len() <= 8,
        ensures
            r.extended_can_id == extended_can_id,
            forall|i: int| 0 <= i < 8 ==> r.buffer[i] == Self::padded(data@, i),
    {
        let mut buffer: [u8; 8] = [0u8; 8];
        let mut i: usize = 0;
        while i < data.len()
            invariant
                data@.len() <= 8,
                i <= data@.len(),
                forall|j: int| 0 <= j < i ==> buffer[j] == data@[j],
                forall|j: int| i <= j < 8 ==> buffer[j] == 0,
            decreases data@.len() - i,
        {
            buffer[i] = data[i];
            i = i + 1;
        }
        CanBuffer { extended_can_id, buffer }
    }

    /// The socketcan frame carrying this value; `None` when the identifier
    /// does not fit in 29 bits.
    pub fn as_socketcan_can_frame(&self) -> (r: Option<CanFrame>)
        ensures
            r.is_some() <==> self.is_extended_id(),
            r matches Some(f) ==> frame_extended_id(f) == Some(self.extended_can_id)
                && frame_payload(f) == self.buffer@ && frame_dlc(f) == 8,
    {
        match ExtendedId::new(self.extended_can_id) {
            Some(id) => new_data_frame(id, &self.buffer),
            None => None,
        }
    }

    /// The value carried by a socketcan frame; `None` when the frame is not
    /// in extended format or its length code exceeds 8. A shorter payload is
    /// padded with zeros.
    pub fn from_socketcan_can_frame(frame: CanFrame) -> (r: Option<Self>)
        ensures
            r is Some <==> (frame_extended_id(frame) is Some && frame_dlc(frame) <= 8),
            r matches Some(b) ==> b.is_extended_id() && b.extended_can_id == frame_extended_id(
                frame,
            )->Some_0 && forall|i: int|
                0 <= i < 8 ==> b.buffer[i] == Self::padded(frame_payload(frame), i),
    {
        match extended_id_of(&frame) {
            Some(id) => {
                if dlc_of(&frame) <= 8 {
                    let data = payload_of(&frame);
                    Some(Self::from_parts(id, data.as_slice()))
                } else {
                    None
                }
            },
            None => None,
        }
    }
}

} // verus!
