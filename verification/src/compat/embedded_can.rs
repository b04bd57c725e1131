//! Conversions for the Classic CAN frames of `embedded-can` 0.4.
//!
//! The `embedded_can::Frame` trait carries neither the CAN FD flag nor bus
//! errors; native types that can hold CAN FD frames need their own adapter.
//! The functions here take and give the values that the trait's methods
//! give and take, so that any frame type can be converted by a caller.

use vstd::prelude::*;

use crate::frame::{id_in_range, EncodedFrame, FrameId, FramePayload, FrameRef, PayloadView};

verus! {

#[verifier::external_type_specification]
#[verifier::external_body]
pub struct ExEmbeddedCanId(::embedded_can::Id);

#[verifier::external_type_specification]
#[verifier::external_body]
pub struct ExEmbeddedCanStandardId(::embedded_can::StandardId);

#[verifier::external_type_specification]
#[verifier::external_body]
pub struct ExEmbeddedCanExtendedId(::embedded_can::ExtendedId);

/// The `embedded_can::Id::Standard` that holds the raw value `raw`.
pub uninterp spec fn embedded_standard_id(raw: u16) -> ::embedded_can::Id;

/// The `embedded_can::Id::Extended` that holds the raw value `raw`.
pub uninterp spec fn embedded_extended_id(raw: u32) -> ::embedded_can::Id;

/// The `embedded_can::Id` of an identifier: the variant of its format
/// holding its raw value.
pub open spec fn embedded_can_id_of(id: FrameId) -> ::embedded_can::Id {
    match id {
        FrameId::Standard(raw) => embedded_standard_id(raw),
        FrameId::Extended(raw) => embedded_extended_id(raw),
    }
}

/// Whether `id` is the only identifier whose `embedded_can::Id` is `can_id`.
pub open spec fn identifies(can_id: ::embedded_can::Id, id: FrameId) -> bool {
    &&& embedded_can_id_of(id) == can_id
    &&& forall|other: FrameId| #[trigger] embedded_can_id_of(other) == can_id ==> other == id
}

/// The identifier whose `embedded_can::Id` is `can_id`.
pub open spec fn frame_id_of(can_id: ::embedded_can::Id) -> FrameId {
    choose|id: FrameId| embedded_can_id_of(id) == can_id
}

/// `embedded_can::StandardId::new`, converted into an `Id` with
/// `From<StandardId> for Id`: the standard `Id` holding `raw` exactly when
/// the raw value fits 11 bits. `Id` values of different variants or raw
/// values differ, so that `Id` holds no other identifier.
#[verifier::external_body]
fn standard_id(raw: u16) -> (id: Option<::embedded_can::Id>)
    ensures
        id == (if raw <= 0x7ff {
            Some(embedded_standard_id(raw))
        } else {
            None
        }),
        id matches Some(can_id) ==> identifies(can_id, FrameId::Standard(raw)),
{
    ::embedded_can::StandardId::new(raw).map(::embedded_can::Id::from)
}

/// `embedded_can::ExtendedId::new`, converted into an `Id` with
/// `From<ExtendedId> for Id`: the extended `Id` holding `raw` exactly when
/// the raw value fits 29 bits. `Id` values of different variants or raw
/// values differ, so that `Id` holds no other identifier.
#[verifier::external_body]
fn extended_id(raw: u32) -> (id: Option<::embedded_can::Id>)
    ensures
        id == (if raw <= 0x1fff_ffff {
            Some(embedded_extended_id(raw))
        } else {
            None
        }),
        id matches Some(can_id) ==> identifies(can_id, FrameId::Extended(raw)),
{
    ::embedded_can::ExtendedId::new(raw).map(::embedded_can::Id::from)
}

/// Reads the format and raw value of an `embedded_can::Id` with
/// `StandardId::as_raw` or `ExtendedId::as_raw`: the result names the
/// variant of `id` and the raw value it holds, and no other identifier
/// names `id`. Whether that raw value lies within the range of its format
/// is not stated, since `embedded-can` can build identifiers without
/// checking it.
#[verifier::external_body]
fn frame_id_from_embedded_can(id: ::embedded_can::Id) -> (frame_id: FrameId)
    ensures
        identifies(id, frame_id),
{
    match id {
        ::embedded_can::Id::Standard(id) => FrameId::Standard(id.as_raw()),
        ::embedded_can::Id::Extended(id) => FrameId::Extended(id.as_raw()),
    }
}

/// Converts an identifier to an `embedded_can::Id`; `None` when its raw
/// value lies outside the range of its format.
pub fn embedded_can_id(id: FrameId) -> (result: Option<::embedded_can::Id>)
    ensures
        result == (if id_in_range(id) {
            Some(embedded_can_id_of(id))
        } else {
            None
        }),
        result matches Some(can_id) ==> identifies(can_id, id),
{
    match id {
        FrameId::Standard(raw) => standard_id(raw),
        FrameId::Extended(raw) => extended_id(raw),
    }
}

impl FrameId {
    /// The identifier held by an `embedded_can::Id`: its format and raw
    /// value. It is the only identifier whose `embedded_can::Id` is `id`, so
    /// converting an identifier to an `embedded_can::Id` and back gives it
    /// again.
    pub fn from_embedded_can(id: ::embedded_can::Id) -> (frame_id: FrameId)
        ensures
            identifies(id, frame_id),
            frame_id == frame_id_of(id),
    {
        frame_id_from_embedded_can(id)
    }
}

impl EncodedFrame {
    /// The identifier and data with which `embedded_can::Frame::new` builds
    /// the native frame of this encoded Classic data frame. An encoded
    /// frame's identifier is always valid, so there is always a result;
    /// whether a given frame type accepts the pair is up to its `new`.
    pub fn to_embedded_can(&self) -> (parts: Option<(::embedded_can::Id, &[u8])>)
        ensures
            parts matches Some((id, data)) && id == embedded_can_id_of(self.id()) && data@
                == self.bytes(),
    {
        match embedded_can_id(self.id()) {
            Some(id) => Some((id, self.data())),
            None => None,
        }
    }
}

/// The DLC or the driver buffer of a Classic frame does not fit the
/// `embedded_can::Frame` contract.
#[derive(Clone, Copy, Debug, PartialEq, Eq)]
pub struct InvalidFrameLength;

impl<'a> FrameRef<'a> {
    /// Borrows decoder input from the parts of an `embedded-can` frame that
    /// the caller knows to be a Classic data or remote frame: its `id()`,
    /// `dlc()`, `is_remote_frame()` and `data()`.
    ///
    /// The DLC must be at most eight, and a data frame must provide at least
    /// DLC bytes, of which only that valid prefix is borrowed. A remote frame
    /// keeps its DLC and its data buffer is not read.
    pub fn from_classic_embedded_can(id: ::embedded_can::Id, dlc: usize, is_remote: bool, data: &'a [u8]) -> (result:
        Result<Self, InvalidFrameLength>)
        ensures
            result is Ok <==> dlc <= 8 && (is_remote || dlc <= data@.len()),
            result matches Ok(frame) ==> identifies(id, frame.id) && frame.id == frame_id_of(id),
            result matches Ok(frame) ==> frame.payload@ == (if is_remote {
                PayloadView::Remote { dlc: dlc as u8 }
            } else {
                PayloadView::Data(data@.subrange(0, dlc as int))
            }),
    {
        if dlc > 8 {
            return Err(InvalidFrameLength);
        }
        let payload = if is_remote {
            FramePayload::Remote { dlc: dlc as u8 }
        } else {
            if dlc > data.len() {
                return Err(InvalidFrameLength);
            }
            FramePayload::Data(vstd::slice::slice_subrange(data, 0, dlc))
        };
        Ok(FrameRef { id: FrameId::from_embedded_can(id), payload })
    }
}

} // verus!
