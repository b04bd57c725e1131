//! Conversions for the native `Frame` and `FdFrame` of Embassy STM32 0.6.
//!
//! An encoded frame always stays a Classic data frame, also when it is put
//! into an `FdFrame`, which is then only a container. Received frames keep
//! their actual FD flag, even a CAN FD frame of at most eight bytes; the
//! protocol decoders decide whether to accept them.

use vstd::prelude::*;

use crate::compat::embedded_can::{embedded_can_id, embedded_can_id_of, frame_id_of, identifies};
use crate::frame::{
    id_in_range, EncodedFrame, FrameId, FramePayload, FrameRef, FrameView, PayloadView,
};

verus! {

#[verifier::external_type_specification]
#[verifier::external_body]
pub struct ExEmbassyHeader(::embassy_stm32::can::frame::Header);

#[verifier::external_type_specification]
#[verifier::external_body]
pub struct ExEmbassyFrame(::embassy_stm32::can::frame::Frame);

#[verifier::external_type_specification]
#[verifier::external_body]
pub struct ExEmbassyFdFrame(::embassy_stm32::can::frame::FdFrame);

/// The length in a native header cannot be represented safely and exactly
/// by its frame buffer: a Classic length above eight, a CAN FD length that
/// is not one of the CAN FD lengths, or a length beyond the buffer. This
/// adapter error is kept apart from the protocol `DecodeError`: only a
/// successfully converted [`FrameRef`] goes to the protocol decoders.
#[derive(Clone, Copy, Debug, PartialEq, Eq)]
pub enum FromEmbassyError {
    /// The header length does not fit the Classic or CAN FD rules or the
    /// frame buffer.
    InvalidPayloadLength,
}

/// The fields of a native header that the conversion reads, as plain values.
#[derive(Clone, Copy, Debug, PartialEq, Eq)]
pub struct HeaderFields {
    /// The identifier and its format.
    pub id: FrameId,
    /// The length the header declares: the DLC of a Classic frame, the
    /// byte count of a CAN FD frame.
    pub len: u8,
    /// The remote transmission request flag.
    pub rtr: bool,
    /// The CAN FD format flag.
    pub fdcan: bool,
}

/// Whether `len` is a CAN FD data length: `0..=8`, 12, 16, 20, 24, 32, 48 or 64.
pub open spec fn canonical_fd_length(len: u8) -> bool {
    len <= 8 || len == 12 || len == 16 || len == 20 || len == 24 || len == 32 || len == 48 || len
        == 64
}

/// Whether the length of a header is valid: a CAN FD length for a CAN FD
/// frame, at most eight for a Classic frame.
pub open spec fn header_length_valid(header: HeaderFields) -> bool {
    if header.fdcan {
        canonical_fd_length(header.len)
    } else {
        header.len <= 8
    }
}

/// The borrowed frame shape that a header and its raw data buffer give,
/// if the buffer holds the declared length; the FD flag takes precedence
/// over the remote flag.
pub open spec fn payload_from_parts(header: HeaderFields, raw: Seq<u8>) -> Option<PayloadView> {
    if header.fdcan {
        if header.len <= raw.len() {
            Some(PayloadView::Fd(raw.subrange(0, header.len as int)))
        } else {
            None
        }
    } else if header.rtr {
        Some(PayloadView::Remote { dlc: header.len })
    } else if header.len <= raw.len() {
        Some(PayloadView::Data(raw.subrange(0, header.len as int)))
    } else {
        None
    }
}

/// The frame view that a header and its raw data buffer give, when the
/// header length is valid and the buffer holds it.
pub open spec fn frame_from_parts(header: HeaderFields, raw: Seq<u8>) -> Option<FrameView> {
    if header_length_valid(header) {
        match payload_from_parts(header, raw) {
            Some(payload) => Some(FrameView { id: header.id, payload }),
            None => None,
        }
    } else {
        None
    }
}

/// `bytes` followed by zeros up to `size` bytes.
pub open spec fn zero_padded(bytes: Seq<u8>, size: nat) -> Seq<u8> {
    bytes + Seq::new((size - bytes.len()) as nat, |i: int| 0u8)
}

/// The eight-byte data buffer of an Embassy Classic `Frame`.
pub uninterp spec fn classic_frame_buffer(frame: ::embassy_stm32::can::frame::Frame) -> Seq<u8>;

/// The 64-byte data buffer of an Embassy `FdFrame`.
pub uninterp spec fn fd_frame_buffer(frame: ::embassy_stm32::can::frame::FdFrame) -> Seq<u8>;

/// The header of an Embassy Classic `Frame`.
pub uninterp spec fn classic_frame_header(frame: ::embassy_stm32::can::frame::Frame) -> ::embassy_stm32::can::frame::Header;

/// The header of an Embassy `FdFrame`.
pub uninterp spec fn fd_frame_header(frame: ::embassy_stm32::can::frame::FdFrame) -> ::embassy_stm32::can::frame::Header;

/// The identifier of an Embassy header.
pub uninterp spec fn embassy_header_id(header: ::embassy_stm32::can::frame::Header) -> ::embedded_can::Id;

/// The length an Embassy header declares.
pub uninterp spec fn embassy_header_len(header: ::embassy_stm32::can::frame::Header) -> u8;

/// The remote flag of an Embassy header.
pub uninterp spec fn embassy_header_rtr(header: ::embassy_stm32::can::frame::Header) -> bool;

/// The CAN FD flag of an Embassy header.
pub uninterp spec fn embassy_header_fdcan(header: ::embassy_stm32::can::frame::Header) -> bool;

/// The fields of an Embassy header as plain values.
pub open spec fn embassy_header_fields(header: ::embassy_stm32::can::frame::Header) -> HeaderFields {
    HeaderFields {
        id: frame_id_of(embassy_header_id(header)),
        len: embassy_header_len(header),
        rtr: embassy_header_rtr(header),
        fdcan: embassy_header_fdcan(header),
    }
}

/// The decoder input that an Embassy Classic `Frame` gives: its header
/// fields over its eight-byte buffer; `None` when the header length does
/// not fit.
pub open spec fn classic_frame_view(frame: ::embassy_stm32::can::frame::Frame) -> Option<FrameView> {
    frame_from_parts(embassy_header_fields(classic_frame_header(frame)), classic_frame_buffer(frame))
}

/// The bytes of an Embassy `FdFrame` that its view reads: none for a
/// Classic remote frame, else its 64-byte buffer.
pub open spec fn fd_frame_raw(frame: ::embassy_stm32::can::frame::FdFrame) -> Seq<u8> {
    let header = embassy_header_fields(fd_frame_header(frame));
    if !header.fdcan && header.rtr {
        Seq::empty()
    } else {
        fd_frame_buffer(frame)
    }
}

/// The decoder input that an Embassy `FdFrame` gives; `None` when the
/// header length does not fit.
pub open spec fn fd_frame_view(frame: ::embassy_stm32::can::frame::FdFrame) -> Option<FrameView> {
    frame_from_parts(embassy_header_fields(fd_frame_header(frame)), fd_frame_raw(frame))
}

/// The view of a conversion result: the frame on success, `None` on failure.
pub open spec fn converted_view(result: Result<FrameRef, FromEmbassyError>) -> Option<FrameView> {
    match result {
        Ok(frame) => Some(frame@),
        Err(_) => None,
    }
}

/// Whether `len` is one of the CAN FD data lengths.
pub fn is_canonical_fd_length(len: u8) -> (canonical: bool)
    ensures
        canonical == canonical_fd_length(len),
{
    len <= 8 || len == 12 || len == 16 || len == 20 || len == 24 || len == 32 || len == 48 || len
        == 64
}

/// Checks the length of a header against the rules of its format.
pub fn validate_header_length(header: HeaderFields) -> (result: Result<(), FromEmbassyError>)
    ensures
        result is Ok <==> header_length_valid(header),
        result matches Err(e) ==> e == FromEmbassyError::InvalidPayloadLength,
{
    if header.fdcan {
        if is_canonical_fd_length(header.len) {
            Ok(())
        } else {
            Err(FromEmbassyError::InvalidPayloadLength)
        }
    } else if header.len <= 8 {
        Ok(())
    } else {
        Err(FromEmbassyError::InvalidPayloadLength)
    }
}

/// Borrows the frame shape of a header whose length was checked, taking the
/// declared number of bytes from `raw_data`. A frame with the FD flag stays
/// CAN FD whatever its length; a Classic remote frame keeps its DLC.
pub fn frame_ref_from_valid_parts<'a>(header: HeaderFields, raw_data: &'a [u8]) -> (result: Result<
    FrameRef<'a>,
    FromEmbassyError,
>)
    ensures
        result is Ok <==> payload_from_parts(header, raw_data@) is Some,
        result matches Ok(frame) ==> frame.id == header.id && Some(frame.payload@)
            == payload_from_parts(header, raw_data@),
        result matches Err(e) ==> e == FromEmbassyError::InvalidPayloadLength,
{
    let len = header.len as usize;
    let payload = if header.fdcan {
        if len > raw_data.len() {
            return Err(FromEmbassyError::InvalidPayloadLength);
        }
        FramePayload::Fd(vstd::slice::slice_subrange(raw_data, 0, len))
    } else if header.rtr {
        FramePayload::Remote { dlc: header.len }
    } else {
        if len > raw_data.len() {
            return Err(FromEmbassyError::InvalidPayloadLength);
        }
        FramePayload::Data(vstd::slice::slice_subrange(raw_data, 0, len))
    };
    Ok(FrameRef { id: header.id, payload })
}

/// Checks the header length, then borrows the frame shape from the raw
/// data buffer.
pub fn frame_ref_from_parts<'a>(header: HeaderFields, raw_data: &'a [u8]) -> (result: Result<
    FrameRef<'a>,
    FromEmbassyError,
>)
    ensures
        result is Ok <==> header_length_valid(header) && payload_from_parts(header, raw_data@) is Some,
        result matches Ok(frame) ==> frame.id == header.id && Some(frame.payload@)
            == payload_from_parts(header, raw_data@),
        result matches Err(e) ==> e == FromEmbassyError::InvalidPayloadLength,
{
    validate_header_length(header)?;
    frame_ref_from_valid_parts(header, raw_data)
}

/// `Header::id` of Embassy: the identifier of a header.
#[verifier::external_body]
fn header_id(header: &::embassy_stm32::can::frame::Header) -> (id: ::embedded_can::Id)
    ensures
        id == embassy_header_id(*header),
{
    *header.id()
}

/// `Header::len` of Embassy: the length a header declares.
#[verifier::external_body]
fn header_len(header: &::embassy_stm32::can::frame::Header) -> (len: u8)
    ensures
        len == embassy_header_len(*header),
{
    header.len()
}

/// `Header::rtr` of Embassy: the remote flag of a header.
#[verifier::external_body]
fn header_rtr(header: &::embassy_stm32::can::frame::Header) -> (rtr: bool)
    ensures
        rtr == embassy_header_rtr(*header),
{
    header.rtr()
}

/// `Header::fdcan` of Embassy: the CAN FD flag of a header.
#[verifier::external_body]
fn header_fdcan(header: &::embassy_stm32::can::frame::Header) -> (fdcan: bool)
    ensures
        fdcan == embassy_header_fdcan(*header),
{
    header.fdcan()
}

/// The fields of an Embassy header as plain values.
pub fn header_fields(header: &::embassy_stm32::can::frame::Header) -> (fields: HeaderFields)
    ensures
        fields == embassy_header_fields(*header),
        identifies(embassy_header_id(*header), fields.id),
{
    let id = FrameId::from_embedded_can(header_id(header));
    HeaderFields {
        id,
        len: header_len(header),
        rtr: header_rtr(header),
        fdcan: header_fdcan(header),
    }
}

/// `Frame::header` of Embassy: the header of a Classic frame container.
#[verifier::external_body]
fn classic_header(frame: &::embassy_stm32::can::frame::Frame) -> (header: &::embassy_stm32::can::frame::Header)
    ensures
        *header == classic_frame_header(*frame),
{
    frame.header()
}

/// `Frame::raw_data` of Embassy: the whole eight-byte buffer of a Classic
/// frame container, of which bytes beyond the header length may be
/// undefined.
#[verifier::external_body]
fn classic_raw_data(frame: &::embassy_stm32::can::frame::Frame) -> (raw: &[u8])
    ensures
        raw@.len() == 8,
        raw@ == classic_frame_buffer(*frame),
{
    frame.raw_data()
}

/// `FdFrame::header` of Embassy: the header of an FD frame container.
#[verifier::external_body]
fn fd_header(frame: &::embassy_stm32::can::frame::FdFrame) -> (header: &::embassy_stm32::can::frame::Header)
    ensures
        *header == fd_frame_header(*frame),
{
    frame.header()
}

/// `FdFrame::data` of Embassy: the first bytes of the 64-byte buffer, as
/// many as the header declares. It panics when the header declares more
/// than 64 bytes.
#[verifier::external_body]
fn fd_frame_data(frame: &::embassy_stm32::can::frame::FdFrame) -> (data: &[u8])
    requires
        embassy_header_len(fd_frame_header(*frame)) <= 64,
    ensures
        data@.len() == embassy_header_len(fd_frame_header(*frame)),
        data@.len() <= fd_frame_buffer(*frame).len(),
        data@ == fd_frame_buffer(*frame).subrange(0, data@.len() as int),
{
    frame.data()
}

/// `Header::new` of Embassy: a Classic header (FD flag clear) with the
/// given identifier, length and remote flag.
#[verifier::external_body]
fn classic_header_new(id: ::embedded_can::Id, len: u8, rtr: bool) -> (header: ::embassy_stm32::can::frame::Header)
    ensures
        embassy_header_id(header) == id,
        embassy_header_len(header) == len,
        embassy_header_rtr(header) == rtr,
        !embassy_header_fdcan(header),
{
    ::embassy_stm32::can::frame::Header::new(id, len, rtr)
}

/// `Frame::new` of Embassy, which builds a Classic frame exactly when the
/// data has at most eight bytes; the frame keeps the header, and its buffer
/// holds the data followed by zeros.
#[verifier::external_body]
fn classic_frame_new(header: ::embassy_stm32::can::frame::Header, data: &[u8]) -> (frame: Option<
    ::embassy_stm32::can::frame::Frame,
>)
    ensures
        frame is Some <==> data@.len() <= 8,
        frame matches Some(frame) ==> classic_frame_header(frame) == header
            && classic_frame_buffer(frame) == zero_padded(data@, 8),
{
    ::embassy_stm32::can::frame::Frame::new(header, data).ok()
}

/// `FdFrame::new` of Embassy, which builds a frame exactly when the data
/// length is a CAN FD data length; the frame keeps the header, and its
/// buffer holds the data followed by zeros.
#[verifier::external_body]
fn fd_frame_new(header: ::embassy_stm32::can::frame::Header, data: &[u8]) -> (frame: Option<
    ::embassy_stm32::can::frame::FdFrame,
>)
    ensures
        frame is Some <==> data@.len() <= 8 || data@.len() == 12 || data@.len() == 16
            || data@.len() == 20 || data@.len() == 24 || data@.len() == 32 || data@.len() == 48
            || data@.len() == 64,
        frame matches Some(frame) ==> fd_frame_header(frame) == header && fd_frame_buffer(frame)
            == zero_padded(data@, 64),
{
    ::embassy_stm32::can::frame::FdFrame::new(header, data).ok()
}

/// The `embedded_can::Id` of a valid identifier.
pub(crate) fn encoded_id(id: FrameId) -> (can_id: ::embedded_can::Id)
    requires
        id_in_range(id),
    ensures
        can_id == embedded_can_id_of(id),
        identifies(can_id, id),
{
    match embedded_can_id(id) {
        Some(id) => id,
        None => vstd::pervasive::unreached(),
    }
}

/// The Classic data frame header of an encoded frame: its identifier and
/// DLC, remote and FD flags clear.
fn encoded_header(frame: &EncodedFrame) -> (header: ::embassy_stm32::can::frame::Header)
    ensures
        embassy_header_fields(header) == (HeaderFields {
            id: frame.id(),
            len: frame.bytes().len() as u8,
            rtr: false,
            fdcan: false,
        }),
        identifies(embassy_header_id(header), frame.id()),
{
    let header = classic_header_new(encoded_id(frame.id()), frame.dlc(), false);
    assert(frame_id_of(embassy_header_id(header)) == frame.id());
    header
}

impl EncodedFrame {
    /// Builds the Classic Embassy `Frame` of this encoded data frame: its
    /// header carries the identifier and DLC with the remote and FD flags
    /// clear, and its buffer holds the encoded bytes followed by zeros.
    /// Reading the frame back gives this encoded frame.
    pub fn to_embassy_frame(&self) -> (frame: ::embassy_stm32::can::frame::Frame)
        ensures
            embassy_header_fields(classic_frame_header(frame)) == (HeaderFields {
                id: self.id(),
                len: self.bytes().len() as u8,
                rtr: false,
                fdcan: false,
            }),
            classic_frame_buffer(frame) == zero_padded(self.bytes(), 8),
            classic_frame_view(frame) == Some(self@),
    {
        let data = self.data();
        match classic_frame_new(encoded_header(self), data) {
            Some(frame) => {
                assert(classic_frame_buffer(frame).subrange(0, self.bytes().len() as int) =~= self.bytes());
                frame
            },
            None => vstd::pervasive::unreached(),
        }
    }

    /// Builds an Embassy `FdFrame` container for this encoded data frame;
    /// the frame stays a Classic data frame: its header carries the
    /// identifier and DLC with the remote and FD flags clear, and its buffer
    /// holds the encoded bytes followed by zeros. Reading the container back
    /// gives this encoded frame.
    pub fn to_embassy_fd_frame(&self) -> (frame: ::embassy_stm32::can::frame::FdFrame)
        ensures
            embassy_header_fields(fd_frame_header(frame)) == (HeaderFields {
                id: self.id(),
                len: self.bytes().len() as u8,
                rtr: false,
                fdcan: false,
            }),
            fd_frame_buffer(frame) == zero_padded(self.bytes(), 64),
            fd_frame_view(frame) == Some(self@),
    {
        let data = self.data();
        match fd_frame_new(encoded_header(self), data) {
            Some(frame) => {
                assert(fd_frame_buffer(frame).subrange(0, self.bytes().len() as int) =~= self.bytes());
                frame
            },
            None => vstd::pervasive::unreached(),
        }
    }
}

impl<'a> FrameRef<'a> {
    /// Borrows the actual frame shape of an Embassy Classic `Frame`
    /// container: its header fields are checked and the declared number of
    /// bytes is borrowed from its eight-byte buffer.
    pub fn from_embassy_frame(frame: &'a ::embassy_stm32::can::frame::Frame) -> (result: Result<
        Self,
        FromEmbassyError,
    >)
        ensures
            converted_view(result) == classic_frame_view(*frame),
            result matches Ok(view) ==> identifies(
                embassy_header_id(classic_frame_header(*frame)),
                view.id,
            ),
            result matches Err(e) ==> e == FromEmbassyError::InvalidPayloadLength,
    {
        let header = header_fields(classic_header(frame));
        frame_ref_from_parts(header, classic_raw_data(frame))
    }

    /// Borrows the actual frame shape of an Embassy `FdFrame` container. The
    /// header length is checked before any data is read. A frame with the FD
    /// flag stays CAN FD whatever its length; a Classic remote frame keeps
    /// its DLC and its buffer is not read.
    pub fn from_embassy_fd_frame(frame: &'a ::embassy_stm32::can::frame::FdFrame) -> (result:
        Result<Self, FromEmbassyError>)
        ensures
            converted_view(result) == fd_frame_view(*frame),
            result matches Ok(view) ==> identifies(
                embassy_header_id(fd_frame_header(*frame)),
                view.id,
            ),
            result matches Err(e) ==> e == FromEmbassyError::InvalidPayloadLength,
    {
        let header = header_fields(fd_header(frame));
        validate_header_length(header)?;
        if !header.fdcan && header.rtr {
            return frame_ref_from_valid_parts(header, &[]);
        }
        let data = fd_frame_data(frame);
        proof {
            let buffer = fd_frame_buffer(*frame);
            assert(data@.subrange(0, header.len as int) =~= buffer.subrange(0, header.len as int));
        }
        frame_ref_from_valid_parts(header, data)
    }
}

} // verus!
