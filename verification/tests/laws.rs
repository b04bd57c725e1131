//! Concrete checks of the codec's laws, of the wire values of every
//! enumeration and of the adapter conversions.

use brt_can_protocol::compat::embassy::{
    frame_ref_from_parts, is_canonical_fd_length, validate_header_length, FromEmbassyError,
    HeaderFields,
};
use brt_can_protocol::compat::embedded_can::embedded_can_id;
use brt_can_protocol::protocol::{
    decode_request, decode_response, encode_request, encode_response, AckCommand, Address,
    BaudRate, DecodeError, Direction, EncodeError, ReportingMode, Request, Response, Status,
    Status32,
};
use brt_can_protocol::{FrameId, FramePayload, FrameRef};

fn data_frame(id: FrameId, bytes: &[u8]) -> FrameRef<'_> {
    FrameRef {
        id,
        payload: FramePayload::Data(bytes),
    }
}

fn every_request() -> Vec<Request> {
    vec![
        Request::ReadPosition,
        Request::SetStandardAddress(1),
        Request::SetStandardAddress(0x80),
        Request::SetExtendedAddress(0),
        Request::SetExtendedAddress(0x1234_5678),
        Request::SetBaudRate(BaudRate::Kbps500),
        Request::SetBaudRate(BaudRate::Kbps100),
        Request::SetReportingMode(ReportingMode::Query),
        Request::SetReportingMode(ReportingMode::ExtendedUnsignedSpeed),
        Request::SetReportingPeriod(50),
        Request::SetReportingPeriod(0x1234),
        Request::SetZero,
        Request::SetDirection(Direction::Clockwise),
        Request::SetDirection(Direction::Counterclockwise),
        Request::ReadSpeed,
        Request::SetSpeedSampleTime(0xabcd),
        Request::SetMidpoint,
        Request::SetPosition(0xdead_beef),
        Request::SetFiveTurns,
    ]
}

fn every_response() -> Vec<Response> {
    vec![
        Response::Position(0x0102_0304),
        Response::Speed(i32::MIN),
        Response::Speed(-2),
        Response::Ack {
            command: AckCommand::SetDirection,
            status: Status(7),
        },
        Response::Ack {
            command: AckCommand::SetFiveTurns,
            status: Status(0),
        },
        Response::SetExtendedAddress(Status32(0x0a0b_0c0d)),
    ]
}

fn addresses() -> Vec<Address> {
    vec![
        Address::standard(0),
        Address::standard(0x42),
        Address::extended(0x18ff_f225, 0x25).unwrap(),
        Address::extended(0x42, 0x42).unwrap(),
    ]
}

#[test]
fn every_request_round_trips_at_every_address() {
    for address in addresses() {
        for request in every_request() {
            let encoded = encode_request(address, request).unwrap();
            assert_eq!(encoded.id(), address.id());
            assert_eq!(usize::from(encoded.dlc()), encoded.data().len());
            assert_eq!(encoded.data()[0], encoded.dlc());
            assert_eq!(encoded.data()[1], address.device_id());
            assert_eq!(decode_request(address, encoded.as_ref()), Ok(Some(request)));
        }
    }
}

#[test]
fn every_response_round_trips_at_every_address() {
    for address in addresses() {
        for response in every_response() {
            let encoded = encode_response(address, response).unwrap();
            assert_eq!(encoded.id(), address.id());
            assert_eq!(encoded.data()[0], encoded.dlc());
            assert_eq!(decode_response(address, encoded.as_ref()), Ok(Some(response)));
        }
    }
}

#[test]
fn decoded_frames_encode_back_to_their_bytes() {
    let address = Address::standard(1);
    let position = [7, 1, 1, 0x11, 0x22, 0x33, 0x44];
    let decoded = decode_response(address, data_frame(FrameId::Standard(1), &position))
        .unwrap()
        .unwrap();
    assert_eq!(decoded, Response::Position(0x4433_2211));
    assert_eq!(encode_response(address, decoded).unwrap().data(), &position);

    let period = [5, 1, 5, 0x34, 0x12];
    let decoded = decode_request(address, data_frame(FrameId::Standard(1), &period))
        .unwrap()
        .unwrap();
    assert_eq!(decoded, Request::SetReportingPeriod(0x1234));
    assert_eq!(encode_request(address, decoded).unwrap().data(), &period);
}

#[test]
fn extended_address_request_accepts_a_short_length_byte_only_as_a_request() {
    let address = Address::standard(1);
    let short = [4, 1, 0x22, 0x25, 0xf2, 0xff, 0x18];
    let long = [7, 1, 0x22, 0x25, 0xf2, 0xff, 0x18];
    let request = Request::SetExtendedAddress(0x18ff_f225);
    assert_eq!(
        decode_request(address, data_frame(FrameId::Standard(1), &short)),
        Ok(Some(request))
    );
    assert_eq!(
        decode_request(address, data_frame(FrameId::Standard(1), &long)),
        Ok(Some(request))
    );
    assert_eq!(encode_request(address, request).unwrap().data(), &long);
    assert_eq!(
        decode_response(address, data_frame(FrameId::Standard(1), &short)),
        Err(DecodeError::LengthMismatch {
            declared: 4,
            actual: 7
        })
    );
}

#[test]
fn every_wire_byte_decodes_to_at_most_one_value_that_encodes_back() {
    let address = Address::standard(1);
    let mut baud_rates = 0;
    let mut modes = 0;
    let mut directions = 0;
    for byte in 0..=255u8 {
        for (function, count) in [(3u8, &mut baud_rates), (4, &mut modes), (7, &mut directions)] {
            let bytes = [4, 1, function, byte];
            match decode_request(address, data_frame(FrameId::Standard(1), &bytes)) {
                Ok(Some(request)) => {
                    *count += 1;
                    assert_eq!(encode_request(address, request).unwrap().data(), &bytes);
                }
                Err(DecodeError::InvalidBaudRate(value))
                | Err(DecodeError::InvalidReportingMode(value))
                | Err(DecodeError::InvalidDirection(value)) => assert_eq!(value, byte),
                other => panic!("unexpected result {other:?}"),
            }
        }
    }
    assert_eq!((baud_rates, modes, directions), (5, 7, 2));
}

#[test]
fn other_identifiers_and_formats_are_not_messages_for_the_address() {
    let address = Address::standard(5);
    for id in [
        FrameId::Standard(6),
        FrameId::Extended(5),
        FrameId::Standard(0x7ff),
    ] {
        for bytes in [&[][..], &[4, 5, 1, 0], &[0xff; 12]] {
            assert_eq!(decode_request(address, data_frame(id, bytes)), Ok(None));
            assert_eq!(decode_response(address, data_frame(id, bytes)), Ok(None));
        }
    }
}

#[test]
fn invalid_identifiers_are_rejected_before_the_payload_is_looked_at() {
    let address = Address::standard(1);
    let remote = FrameRef {
        id: FrameId::Extended(0x2000_0000),
        payload: FramePayload::Remote { dlc: 0 },
    };
    assert_eq!(
        decode_request(address, remote),
        Err(DecodeError::InvalidExtendedCanId(0x2000_0000))
    );
    let fd = FrameRef {
        id: FrameId::Standard(0x800),
        payload: FramePayload::Fd(&[]),
    };
    assert_eq!(
        decode_response(address, fd),
        Err(DecodeError::InvalidStandardCanId(0x800))
    );
}

#[test]
fn speed_keeps_its_sign_bits() {
    let address = Address::standard(1);
    let encoded = encode_response(address, Response::Speed(-74565)).unwrap();
    assert_eq!(encoded.data(), &[7, 1, 0x0a, 0xbb, 0xdc, 0xfe, 0xff]);
    assert_eq!(
        decode_response(address, encoded.as_ref()),
        Ok(Some(Response::Speed(-74565)))
    );
}

#[test]
fn encode_errors_come_exactly_for_out_of_range_values() {
    let address = Address::standard(1);
    assert_eq!(
        encode_request(address, Request::SetStandardAddress(0)),
        Err(EncodeError::InvalidStandardAddress(0))
    );
    assert!(encode_request(address, Request::SetStandardAddress(1)).is_ok());
    assert_eq!(
        encode_request(address, Request::SetExtendedAddress(0x2000_0000)),
        Err(EncodeError::InvalidExtendedCanId(0x2000_0000))
    );
    assert!(encode_request(address, Request::SetExtendedAddress(0x1fff_ffff)).is_ok());
    assert_eq!(
        encode_request(address, Request::SetReportingPeriod(49)),
        Err(EncodeError::InvalidReportingPeriod(49))
    );
    assert!(encode_request(address, Request::SetReportingPeriod(50)).is_ok());
    assert_eq!(
        Address::extended(u32::MAX, 1),
        Err(EncodeError::InvalidExtendedCanId(u32::MAX))
    );
}

#[test]
fn embedded_can_identifiers_exist_exactly_within_their_format_range() {
    assert!(embedded_can_id(FrameId::Standard(0x7ff)).is_some());
    assert!(embedded_can_id(FrameId::Standard(0x800)).is_none());
    assert!(embedded_can_id(FrameId::Extended(0x1fff_ffff)).is_some());
    assert!(embedded_can_id(FrameId::Extended(0x2000_0000)).is_none());
    assert_eq!(
        embedded_can_id(FrameId::Standard(0x123)),
        Some(embedded_can::Id::Standard(
            embedded_can::StandardId::new(0x123).unwrap()
        ))
    );
    assert_eq!(
        embedded_can_id(FrameId::Extended(0x123)),
        Some(embedded_can::Id::Extended(
            embedded_can::ExtendedId::new(0x123).unwrap()
        ))
    );
}

#[test]
fn embedded_can_identifiers_convert_back_to_the_same_identifier() {
    for id in [
        FrameId::Standard(0),
        FrameId::Standard(0x7ff),
        FrameId::Extended(0x7ff),
        FrameId::Extended(0x1fff_ffff),
    ] {
        assert_eq!(FrameId::from_embedded_can(embedded_can_id(id).unwrap()), id);
    }
}

#[test]
fn embassy_header_lengths_follow_the_classic_and_fd_rules() {
    let canonical: Vec<u8> = (0..=255u8).filter(|len| is_canonical_fd_length(*len)).collect();
    assert_eq!(
        canonical,
        vec![0, 1, 2, 3, 4, 5, 6, 7, 8, 12, 16, 20, 24, 32, 48, 64]
    );
    let header = |len, rtr, fdcan| HeaderFields {
        id: FrameId::Standard(1),
        len,
        rtr,
        fdcan,
    };
    assert_eq!(validate_header_length(header(8, false, false)), Ok(()));
    assert_eq!(
        validate_header_length(header(9, false, false)),
        Err(FromEmbassyError::InvalidPayloadLength)
    );
    assert_eq!(validate_header_length(header(64, false, true)), Ok(()));
    assert_eq!(
        validate_header_length(header(13, false, true)),
        Err(FromEmbassyError::InvalidPayloadLength)
    );
    let raw = [1, 2, 3, 4, 5, 6, 7, 8];
    assert_eq!(
        frame_ref_from_parts(header(3, false, false), &raw).unwrap().payload,
        FramePayload::Data(&[1, 2, 3])
    );
    assert_eq!(
        frame_ref_from_parts(header(3, true, true), &raw).unwrap().payload,
        FramePayload::Fd(&[1, 2, 3])
    );
    assert_eq!(
        frame_ref_from_parts(header(12, false, true), &raw),
        Err(FromEmbassyError::InvalidPayloadLength)
    );
}

#[test]
fn embassy_frames_carry_the_encoded_identifier_and_bytes() {
    let address = Address::extended(0x18ff_f225, 0x25).unwrap();
    let encoded = encode_request(address, Request::SetPosition(0x0102_0304)).unwrap();
    let classic = encoded.to_embassy_frame();
    assert_eq!(
        *classic.id(),
        embedded_can::Id::Extended(embedded_can::ExtendedId::new(0x18ff_f225).unwrap())
    );
    assert_eq!(classic.data(), encoded.data());
    assert!(!classic.header().rtr());
    assert!(!classic.header().fdcan());
    let container = encoded.to_embassy_fd_frame();
    assert_eq!(container.data(), encoded.data());
    assert!(!container.header().fdcan());
    assert_eq!(
        FrameRef::from_embassy_frame(&classic).unwrap(),
        encoded.as_ref()
    );
}
