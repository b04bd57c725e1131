//! The frame adapters keep the identifier, the remote and FD flags and the
//! valid byte range, and never touch a device.

use brt_can_protocol::compat::embassy::FromEmbassyError;
use brt_can_protocol::compat::embedded_can::InvalidFrameLength;
use brt_can_protocol::protocol::{decode_request, encode_request, Address, DecodeError, Request};
use brt_can_protocol::{EncodedFrame, FrameId, FramePayload, FrameRef};
use embedded_can::Frame as _;

#[derive(Clone, Copy, Debug, PartialEq, Eq)]
struct FakeFrame<const REJECT_CONSTRUCTION: bool> {
    id: embedded_can::Id,
    data: [u8; 8],
    available: usize,
    dlc: usize,
    remote: bool,
}

impl<const REJECT_CONSTRUCTION: bool> FakeFrame<REJECT_CONSTRUCTION> {
    fn malformed(id: embedded_can::Id, data: [u8; 8], available: usize, dlc: usize, remote: bool) -> Self {
        Self {
            id,
            data,
            available,
            dlc,
            remote,
        }
    }
}

impl<const REJECT_CONSTRUCTION: bool> embedded_can::Frame for FakeFrame<REJECT_CONSTRUCTION> {
    fn new(id: impl Into<embedded_can::Id>, data: &[u8]) -> Option<Self> {
        if REJECT_CONSTRUCTION || data.len() > 8 {
            return None;
        }
        let mut bytes = [0; 8];
        bytes[..data.len()].copy_from_slice(data);
        Some(Self::malformed(
            id.into(),
            bytes,
            data.len(),
            data.len(),
            false,
        ))
    }

    fn new_remote(id: impl Into<embedded_can::Id>, dlc: usize) -> Option<Self> {
        if !REJECT_CONSTRUCTION && dlc <= 8 {
            Some(Self::malformed(id.into(), [0; 8], 0, dlc, true))
        } else {
            None
        }
    }

    fn is_extended(&self) -> bool {
        matches!(self.id, embedded_can::Id::Extended(_))
    }

    fn is_remote_frame(&self) -> bool {
        self.remote
    }

    fn id(&self) -> embedded_can::Id {
        self.id
    }

    fn dlc(&self) -> usize {
        self.dlc
    }

    fn data(&self) -> &[u8] {
        &self.data[..self.available]
    }
}

/// Builds a native `embedded-can` frame from the identifier and data that
/// the library hands to `Frame::new`.
fn to_embedded_can<F: embedded_can::Frame>(encoded: &EncodedFrame) -> Option<F> {
    let (id, data) = encoded.to_embedded_can()?;
    F::new(id, data)
}

/// Borrows decoder input from the parts of an `embedded-can` frame.
fn from_classic_embedded_can<F: embedded_can::Frame>(frame: &F) -> Result<FrameRef<'_>, InvalidFrameLength> {
    FrameRef::from_classic_embedded_can(frame.id(), frame.dlc(), frame.is_remote_frame(), frame.data())
}

fn encoded_read_position() -> EncodedFrame {
    encode_request(Address::standard(1), Request::ReadPosition).unwrap()
}

#[test]
fn embedded_can_encodes_brt_identity_and_propagates_constructor_rejection() {
    let standard: FakeFrame<false> = to_embedded_can(&encoded_read_position()).unwrap();
    assert_eq!(standard.id(), embedded_can::Id::Standard(embedded_can::StandardId::new(1).unwrap()));
    assert_eq!(standard.data(), &[4, 1, 1, 0]);
    assert_eq!(standard.dlc(), 4);
    assert!(!standard.is_remote_frame());
    assert!(to_embedded_can::<FakeFrame<true>>(&encoded_read_position()).is_none());

    let extended: FakeFrame<false> = to_embedded_can(
        &encode_request(
            Address::extended(0x18ff_f225, 0x25).unwrap(),
            Request::ReadPosition,
        )
        .unwrap(),
    )
    .unwrap();
    assert_eq!(
        extended.id(),
        embedded_can::Id::Extended(embedded_can::ExtendedId::new(0x18ff_f225).unwrap())
    );
    assert_eq!(extended.data(), &[4, 0x25, 1, 0]);
}

#[test]
fn embedded_can_preserves_identity_rtr_dlc_and_adapter_length_errors() {
    let standard = FakeFrame::<false>::new(embedded_can::StandardId::new(1).unwrap(), &[4, 1, 1, 0]).unwrap();
    assert_eq!(
        from_classic_embedded_can(&standard).unwrap(),
        FrameRef {
            id: FrameId::Standard(1),
            payload: FramePayload::Data(&[4, 1, 1, 0]),
        }
    );
    let extended = FakeFrame::<false>::new(
        embedded_can::ExtendedId::new(0x18ff_f225).unwrap(),
        &[4, 0x25, 1, 0],
    )
    .unwrap();
    assert_eq!(
        from_classic_embedded_can(&extended).unwrap().id,
        FrameId::Extended(0x18ff_f225)
    );
    let remote = FakeFrame::<false>::new_remote(embedded_can::StandardId::new(1).unwrap(), 4).unwrap();
    assert_eq!(
        from_classic_embedded_can(&remote).unwrap().payload,
        FramePayload::Remote { dlc: 4 }
    );

    let id = embedded_can::StandardId::new(1).unwrap().into();
    let with_tail =
        FakeFrame::<false>::malformed(id, [4, 1, 1, 0, 0xaa, 0xbb, 0xcc, 0xdd], 8, 4, false);
    assert_eq!(
        from_classic_embedded_can(&with_tail).unwrap().payload,
        FramePayload::Data(&[4, 1, 1, 0])
    );
    for frame in [
        FakeFrame::<false>::malformed(id, [0; 8], 8, 9, false),
        FakeFrame::<false>::malformed(id, [4, 1, 1, 0, 0, 0, 0, 0], 3, 4, false),
    ] {
        assert_eq!(from_classic_embedded_can(&frame), Err(InvalidFrameLength));
    }
}

fn standard_id() -> embedded_can::Id {
    embedded_can::StandardId::new(1).unwrap().into()
}

#[test]
fn native_frames_preserve_classic_identity_rtr_and_fd_before_length_classification() {
    let standard = embassy_stm32::can::frame::Frame::new(embassy_stm32::can::frame::Header::new(standard_id(), 4, false), &[4, 1, 1, 0]).unwrap();
    assert_eq!(
        FrameRef::from_embassy_frame(&standard).unwrap(),
        FrameRef {
            id: FrameId::Standard(1),
            payload: FramePayload::Data(&[4, 1, 1, 0]),
        }
    );
    let remote = embassy_stm32::can::frame::Frame::new(embassy_stm32::can::frame::Header::new(standard_id(), 4, true), &[]).unwrap();
    assert_eq!(
        FrameRef::from_embassy_frame(&remote).unwrap().payload,
        FramePayload::Remote { dlc: 4 }
    );
    let remote = embassy_stm32::can::frame::FdFrame::new(embassy_stm32::can::frame::Header::new(standard_id(), 4, true), &[]).unwrap();
    assert_eq!(
        FrameRef::from_embassy_fd_frame(&remote).unwrap().payload,
        FramePayload::Remote { dlc: 4 }
    );
    // An eight-byte container may also carry the FD flag: only the valid
    // bytes are borrowed, and the frame is never passed off as Classic.
    let short_fd = embassy_stm32::can::frame::Frame::new(
        embassy_stm32::can::frame::Header::new_fd(standard_id(), 4, false, false),
        &[4, 1, 1, 0],
    )
    .unwrap();
    let view = FrameRef::from_embassy_frame(&short_fd).unwrap();
    assert_eq!(view.payload, FramePayload::Fd(&[4, 1, 1, 0]));
    assert_eq!(
        decode_request(Address::standard(1), view),
        Err(DecodeError::UnsupportedCanFd)
    );
    let fd = embassy_stm32::can::frame::FdFrame::new(embassy_stm32::can::frame::Header::new_fd(standard_id(), 8, true, false), &[]).unwrap();
    let view = FrameRef::from_embassy_fd_frame(&fd).unwrap();
    assert!(matches!(view.payload, FramePayload::Fd(_)));
    assert_eq!(
        decode_request(Address::standard(1), view),
        Err(DecodeError::UnsupportedCanFd)
    );
    let long_fd = embassy_stm32::can::frame::FdFrame::new(embassy_stm32::can::frame::Header::new_fd(standard_id(), 12, false, false), &[0; 12]).unwrap();
    assert_eq!(
        FrameRef::from_embassy_fd_frame(&long_fd).unwrap().payload,
        FramePayload::Fd(&[0; 12])
    );
}

#[test]
fn encoded_frame_stays_classic_and_invalid_headers_return_adapter_errors() {
    for address in [
        Address::standard(1),
        Address::extended(0x18ff_f225, 0xa6).unwrap(),
    ] {
        let encoded = encode_request(address, Request::ReadPosition).unwrap();
        let classic: embassy_stm32::can::frame::Frame = encoded.to_embassy_frame();
        let fd_container: embassy_stm32::can::frame::FdFrame = encoded.to_embassy_fd_frame();
        assert_eq!(FrameRef::from_embassy_frame(&classic).unwrap(), encoded.as_ref());
        assert_eq!(FrameRef::from_embassy_fd_frame(&fd_container).unwrap(), encoded.as_ref());
    }

    let invalid_classic = embassy_stm32::can::frame::Frame::new(embassy_stm32::can::frame::Header::new(standard_id(), 9, false), &[]).unwrap();
    assert_eq!(
        FrameRef::from_embassy_frame(&invalid_classic),
        Err(FromEmbassyError::InvalidPayloadLength)
    );
    for frame in [
        embassy_stm32::can::frame::FdFrame::new(embassy_stm32::can::frame::Header::new_fd(standard_id(), 9, false, false), &[]).unwrap(),
        embassy_stm32::can::frame::FdFrame::new(embassy_stm32::can::frame::Header::new_fd(standard_id(), 65, false, false), &[]).unwrap(),
    ] {
        assert_eq!(
            FrameRef::from_embassy_fd_frame(&frame),
            Err(FromEmbassyError::InvalidPayloadLength)
        );
    }
}
