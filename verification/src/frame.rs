//! CAN identifiers and frames as plain values.

use vstd::prelude::*;
use crate::buffer::{buffer_bytes, buffer_from, buffered, CAPACITY};

verus! {

/// Largest standard identifier: 11 bits.
pub const MAX_STANDARD_ID: u16 = 0x7FF;

/// Identifier of the peer's heartbeat frame, sent about every 400 ms.
pub const HEARTBEAT_ID: u16 = 0x55E;

/// Identifier of the peer's status frame, sent at a high rate.
pub const STATUS_ID: u16 = 0x197;

/// Byte that fills the payload of the injected frame.
pub const FILL_BYTE: u8 = 0xFF;

/// Most bytes a frame carries.
pub const MAX_PAYLOAD: usize = CAPACITY;

/// `bxcan::StandardId::new`, read back with `StandardId::as_raw`: the
/// identifier is accepted, and is then `raw` itself, exactly when `raw` is
/// at most `0x7FF`.
#[verifier::external_body]
fn checked_standard_raw(raw: u16) -> (accepted: Option<u16>)
    ensures
        accepted == (if raw <= 0x7FF {
            Some(raw)
        } else {
            None
        }),
{
    match bxcan::StandardId::new(raw) {
        Some(id) => Some(id.as_raw()),
        None => None,
    }
}

/// A standard identifier: an 11-bit value.
#[derive(Clone, Copy, Debug, PartialEq, Eq, Structural)]
pub struct CanIdentifier {
    raw: u16,
}

impl View for CanIdentifier {
    type V = u16;

    /// The identifier as a number.
    closed spec fn view(&self) -> u16 {
        self.raw
    }
}

impl CanIdentifier {
    #[verifier::type_invariant]
    spec fn in_range(self) -> bool {
        self.raw <= MAX_STANDARD_ID
    }

    /// The identifier 0, first in bus priority.
    pub fn zero() -> (id: Self)
        ensures
            id@ == 0,
    {
        CanIdentifier { raw: 0 }
    }

    /// The identifier `raw`, or nothing when `raw` needs more than 11 bits.
    pub fn new(raw: u16) -> (id: Option<Self>)
        ensures
            id is Some <==> raw <= MAX_STANDARD_ID,
            id is Some ==> id.unwrap()@ == raw,
    {
        match checked_standard_raw(raw) {
            Some(raw) => Some(CanIdentifier { raw }),
            None => None,
        }
    }

    /// The identifier as a number, at most `0x7FF`.
    pub fn as_raw(&self) -> (raw: u16)
        ensures
            raw == self@,
            raw <= MAX_STANDARD_ID,
    {
        proof {
            use_type_invariant(self);
        }
        self.raw
    }

    /// The identifier as it stands in a frame.
    pub fn frame_id(&self) -> (id: FrameId)
        ensures
            id == FrameId::Standard(self@),
            self@ <= MAX_STANDARD_ID,
    {
        proof {
            use_type_invariant(self);
        }
        FrameId::Standard(self.raw)
    }
}

/// The identifier of a frame on the bus. A standard and an extended
/// identifier are different identifiers even where their numbers agree.
#[derive(Clone, Copy, Debug, PartialEq, Eq, Structural)]
pub enum FrameId {
    /// 11-bit identifier.
    Standard(u16),
    /// 29-bit identifier.
    Extended(u32),
}

/// The standard frame identifier `id`.
pub fn const_standard_id(id: u16) -> (frame_id: FrameId)
    requires
        id <= MAX_STANDARD_ID,
    ensures
        frame_id == FrameId::Standard(id),
{
    match CanIdentifier::new(id) {
        Some(id) => id.frame_id(),
        None => unreached(),
    }
}

/// What a frame is, without how it is stored.
pub struct FrameView {
    /// The frame's identifier.
    pub id: FrameId,
    /// The frame's payload, at most eight bytes.
    pub data: Seq<u8>,
}

/// A frame: an identifier and a payload of at most eight bytes.
#[derive(Debug, PartialEq, Eq)]
pub struct CanFrame {
    id: FrameId,
    data: heapless::Vec<u8, 8>,
}

impl View for CanFrame {
    type V = FrameView;

    closed spec fn view(&self) -> FrameView {
        FrameView { id: self.id, data: buffered(self.data) }
    }
}

impl Clone for CanFrame {
    fn clone(&self) -> (copy: Self)
        ensures
            copy@ == self@,
    {
        proof {
            use_type_invariant(self);
        }
        match buffer_from(buffer_bytes(&self.data)) {
            Some(data) => CanFrame { id: self.id, data },
            None => unreached(),
        }
    }
}

/// The payload of the injected frame: eight fill bytes.
pub open spec fn fill_payload() -> Seq<u8> {
    Seq::new(MAX_PAYLOAD as nat, |i: int| FILL_BYTE)
}

/// The injected frame for the identifier numbered `raw`.
pub open spec fn test_frame_view(raw: u16) -> FrameView {
    FrameView { id: FrameId::Standard(raw), data: fill_payload() }
}

impl CanFrame {
    #[verifier::type_invariant]
    spec fn short_payload(self) -> bool {
        buffered(self.data).len() <= MAX_PAYLOAD
    }

    /// A frame with the given identifier and payload, or nothing when the
    /// payload is longer than eight bytes.
    pub fn new(id: FrameId, data: &[u8]) -> (frame: Option<Self>)
        ensures
            frame is Some <==> data@.len() <= MAX_PAYLOAD,
            frame is Some ==> frame.unwrap()@ == (FrameView { id, data: data@ }),
    {
        match buffer_from(data) {
            Some(data) => Some(CanFrame { id, data }),
            None => None,
        }
    }

    /// The frame that the fixture injects for `id`: eight fill bytes.
    pub fn test_frame(id: CanIdentifier) -> (frame: Self)
        ensures
            frame@ == test_frame_view(id@),
    {
        let payload: [u8; 8] = [
            FILL_BYTE,
            FILL_BYTE,
            FILL_BYTE,
            FILL_BYTE,
            FILL_BYTE,
            FILL_BYTE,
            FILL_BYTE,
            FILL_BYTE,
        ];
        proof {
            assert(payload@ =~= fill_payload());
        }
        match buffer_from(payload.as_slice()) {
            Some(data) => CanFrame { id: id.frame_id(), data },
            None => unreached(),
        }
    }

    /// The frame's identifier.
    pub fn id(&self) -> (id: FrameId)
        ensures
            id == self@.id,
    {
        self.id
    }

    /// The frame's payload.
    pub fn data(&self) -> (data: &[u8])
        ensures
            data@ == self@.data,
            data@.len() <= MAX_PAYLOAD,
    {
        proof {
            use_type_invariant(self);
        }
        buffer_bytes(&self.data)
    }
}

} // verus!
