//! Driver-independent frame model: the identifier with its format, the actual
//! frame shape, and a fixed-capacity encoded Classic CAN data frame.

use vstd::prelude::*;

verus! {

/// Largest 11-bit standard CAN identifier.
pub const MAX_STANDARD_ID: u16 = 0x07ff;

/// Largest 29-bit extended CAN identifier.
pub const MAX_EXTENDED_ID: u32 = 0x1fff_ffff;

/// A CAN identifier together with its format. Decoders check that the raw
/// value lies within the range of its format.
#[derive(Clone, Copy, Debug, PartialEq, Eq, Structural)]
pub enum FrameId {
    /// 11-bit standard identifier.
    Standard(u16),
    /// 29-bit extended identifier.
    Extended(u32),
}

/// Whether the raw value of an identifier fits its format.
pub open spec fn id_in_range(id: FrameId) -> bool {
    match id {
        FrameId::Standard(raw) => raw <= MAX_STANDARD_ID,
        FrameId::Extended(raw) => raw <= MAX_EXTENDED_ID,
    }
}

/// The borrowed shape of a received frame. Whether a frame is CAN FD cannot
/// be inferred from its data length.
#[derive(Clone, Copy, Debug, PartialEq, Eq)]
pub enum FramePayload<'a> {
    /// The valid bytes of a Classic data frame; the slice length is the DLC.
    Data(&'a [u8]),
    /// A Classic remote frame, which the protocol decoders reject.
    Remote {
        /// The DLC reported by the remote frame.
        dlc: u8,
    },
    /// A CAN FD data frame, kept as such even when it carries at most eight
    /// bytes; the protocol decoders reject it.
    Fd(&'a [u8]),
}

/// Mathematical model of a frame payload.
pub enum PayloadView {
    Data(Seq<u8>),
    Remote { dlc: u8 },
    Fd(Seq<u8>),
}

impl<'a> View for FramePayload<'a> {
    type V = PayloadView;

    open spec fn view(&self) -> PayloadView {
        match *self {
            FramePayload::Data(bytes) => PayloadView::Data(bytes@),
            FramePayload::Remote { dlc } => PayloadView::Remote { dlc },
            FramePayload::Fd(bytes) => PayloadView::Fd(bytes@),
        }
    }
}

/// A borrowed decoder input: identifier and actual frame shape.
#[derive(Clone, Copy, Debug, PartialEq, Eq)]
pub struct FrameRef<'a> {
    /// The CAN identifier; standard and extended identifiers differ even
    /// when their raw values are equal.
    pub id: FrameId,
    /// The frame shape and its valid data.
    pub payload: FramePayload<'a>,
}

/// Mathematical model of a frame: identifier and payload.
pub struct FrameView {
    pub id: FrameId,
    pub payload: PayloadView,
}

impl<'a> View for FrameRef<'a> {
    type V = FrameView;

    open spec fn view(&self) -> FrameView {
        FrameView { id: self.id, payload: self.payload@ }
    }
}

/// A Classic CAN data frame with at most eight bytes, held in a fixed buffer.
///
/// Only the protocol encoders build values of this type, so the identifier
/// is always within the range of its format and the DLC never exceeds eight.
#[derive(Clone, Copy, Debug, PartialEq, Eq)]
pub struct EncodedFrame {
    id: FrameId,
    data: [u8; 8],
    len: u8,
}

impl EncodedFrame {
    /// The identifier of the frame.
    pub closed spec fn spec_id(&self) -> FrameId {
        self.id
    }

    /// The valid data bytes of the frame, without the unused buffer tail.
    pub closed spec fn bytes(self) -> Seq<u8> {
        self.data@.subrange(0, self.len as int)
    }

    /// Well-formedness: a valid identifier, at most eight valid bytes, and
    /// zeros in the unused tail of the buffer.
    #[verifier::type_invariant]
    pub closed spec fn wf(self) -> bool {
        &&& self.len <= 8
        &&& id_in_range(self.id)
        &&& forall|i: int| self.len <= i < 8 ==> self.data@[i] == 0
    }

    pub(crate) fn new(id: FrameId, data: [u8; 8], len: u8) -> (frame: Self)
        requires
            len <= 8,
            id_in_range(id),
            forall|i: int| len <= i < 8 ==> data@[i] == 0,
        ensures
            frame.spec_id() == id,
            frame.bytes() == data@.subrange(0, len as int),
    {
        Self { id, data, len }
    }

    /// Returns the full CAN identifier with its format.
    #[verifier::when_used_as_spec(spec_id)]
    pub fn id(&self) -> (id: FrameId)
        ensures
            id == self.spec_id(),
            id_in_range(id),
    {
        proof {
            use_type_invariant(self);
        }
        self.id
    }

    /// Returns the valid data, without the unused tail of the fixed buffer.
    pub fn data(&self) -> (data: &[u8])
        ensures
            data@ == self.bytes(),
            data@.len() <= 8,
    {
        proof {
            use_type_invariant(self);
        }
        let all: &[u8] = &self.data;
        vstd::slice::slice_subrange(all, 0, self.len as usize)
    }

    /// Returns the Classic data frame DLC, the number of valid data bytes.
    pub fn dlc(&self) -> (dlc: u8)
        ensures
            dlc as int == self.bytes().len(),
            dlc <= 8,
    {
        proof {
            use_type_invariant(self);
        }
        self.len
    }

    /// Borrows the frame as decoder input; an encoded frame is always a
    /// Classic data frame.
    pub fn as_ref(&self) -> (frame: FrameRef<'_>)
        ensures
            frame@ == self@,
    {
        FrameRef { id: self.id(), payload: FramePayload::Data(self.data()) }
    }
}

impl View for EncodedFrame {
    type V = FrameView;

    open spec fn view(&self) -> FrameView {
        FrameView { id: self.spec_id(), payload: PayloadView::Data(self.bytes()) }
    }
}

} // verus!
