//! Properties of the codec as a whole: encoding and decoding undo each
//! other, the wire values of the enumerations are one-to-one, and decoders
//! ignore or reject frames that do not belong to the target address.

use vstd::prelude::*;

use crate::compat::embassy::{canonical_fd_length, frame_from_parts, header_length_valid, HeaderFields};
use crate::frame::{id_in_range, FrameId, FrameView, PayloadView};
use crate::protocol::{
    ack_command_of, ack_function, baud_rate_code, baud_rate_of, decode_request_spec,
    decode_response_spec, direction_code, direction_of, matched_data_spec, parse_request,
    parse_response, reporting_mode_code, reporting_mode_of, request_error, request_function,
    request_length, request_message, response_function, response_length, response_message,
    AckCommand, Address, BaudRate, DecodeError, Direction, EncodeError, ReportingMode, Request,
    Response, Status, Status32,
    READ_SPEED, SET_EXTENDED_ADDRESS, SET_POSITION, SET_REPORTING_PERIOD, SET_SPEED_SAMPLE_TIME,
};
use crate::wire::{
    le_u16_at, le_u16_bytes, le_u32_at, le_u32_bytes, lemma_u16_bytes_read_back,
    lemma_u16_value_written_back, lemma_u32_bytes_read_back, lemma_u32_value_written_back,
};

verus! {

/// The frame that carries `bytes` as a Classic data frame with identifier `id`.
pub open spec fn data_frame(id: FrameId, bytes: Seq<u8>) -> FrameView {
    FrameView { id, payload: PayloadView::Data(bytes) }
}

/// Each baud rate, reporting mode, direction and acknowledged command has
/// exactly one wire value, and reading a wire value back gives the same
/// enumeration value.
pub proof fn law_wire_values_are_one_to_one()
    ensures
        forall|rate: BaudRate| baud_rate_of(#[trigger] baud_rate_code(rate)) == Some(rate),
        forall|code: u8|
            #[trigger] baud_rate_of(code) matches Some(rate) ==> baud_rate_code(rate) == code,
        forall|mode: ReportingMode|
            reporting_mode_of(#[trigger] reporting_mode_code(mode)) == Some(mode),
        forall|code: u8|
            #[trigger] reporting_mode_of(code) matches Some(mode) ==> reporting_mode_code(mode)
                == code,
        forall|direction: Direction|
            direction_of(#[trigger] direction_code(direction)) == Some(direction),
        forall|code: u8|
            #[trigger] direction_of(code) matches Some(direction) ==> direction_code(direction)
                == code,
        forall|command: AckCommand|
            ack_command_of(#[trigger] ack_function(command)) == Some(command),
        forall|function: u8|
            #[trigger] ack_command_of(function) matches Some(command) ==> ack_function(command)
                == function,
{
}

/// Exactly the ordinary write functions `0x02`–`0x07`, `0x0b`–`0x0d` and
/// `0x0f` are acknowledged with a one-byte status; read position (`0x01`),
/// read speed (`0x0a`) and setting the extended address (`0x22`) are not.
pub proof fn law_acknowledged_functions()
    ensures
        forall|function: u8|
            #[trigger] ack_command_of(function) is Some <==> (function == 0x02 || function == 0x03
                || function == 0x04 || function == 0x05 || function == 0x06 || function == 0x07
                || function == 0x0b || function == 0x0c || function == 0x0d || function == 0x0f),
{
}

proof fn lemma_speed_bits(value: i32, raw: u32)
    ensures
        (value as u32) as i32 == value,
        (raw as i32) as u32 == raw,
{
    assert((value as u32) as i32 == value) by (bit_vector);
    assert((raw as i32) as u32 == raw) by (bit_vector);
}

/// Every message that an encoder writes is `[LEN, DEVICE_ID, FUNC, DATA...]`
/// with `LEN` equal to the whole length, which is 4, 5 or 7 bytes.
pub proof fn law_messages_declare_their_length(device_id: u8, request: Request, response: Response)
    ensures
        request_message(device_id, request).len() == 4 || request_message(device_id, request).len()
            == 5 || request_message(device_id, request).len() == 7,
        request_message(device_id, request)[0] == request_message(device_id, request).len(),
        request_message(device_id, request)[1] == device_id,
        request_message(device_id, request)[2] == request_function(request),
        response_message(device_id, response).len() == 4 || response_message(
            device_id,
            response,
        ).len() == 7,
        response_message(device_id, response)[0] == response_message(device_id, response).len(),
        response_message(device_id, response)[1] == device_id,
        response_message(device_id, response)[2] == response_function(response),
{
}

/// Decoding the frame that `encode_request` makes for a request gives that
/// request back, for every address and every request within the protocol
/// range.
pub proof fn law_request_round_trip(address: Address, request: Request)
    requires
        id_in_range(address.id()),
        request_error(request) is None,
    ensures
        decode_request_spec(
            address,
            data_frame(address.id(), request_message(address.device_id(), request)),
        ) == Ok::<Option<Request>, DecodeError>(Some(request)),
{
    let data = request_message(address.device_id(), request);
    let frame = data_frame(address.id(), data);
    assert(matched_data_spec(address, frame, true) == Ok::<Option<Seq<u8>>, DecodeError>(
        Some(data),
    ));
    match request {
        Request::SetExtendedAddress(value) => {
            lemma_u32_bytes_read_back(value);
            assert(le_u32_at(data, 3) == le_u32_at(le_u32_bytes(value), 0));
        },
        Request::SetReportingPeriod(value) => {
            lemma_u16_bytes_read_back(value);
            assert(le_u16_at(data, 3) == le_u16_at(le_u16_bytes(value), 0));
        },
        Request::SetSpeedSampleTime(value) => {
            lemma_u16_bytes_read_back(value);
            assert(le_u16_at(data, 3) == le_u16_at(le_u16_bytes(value), 0));
        },
        Request::SetPosition(value) => {
            lemma_u32_bytes_read_back(value);
            assert(le_u32_at(data, 3) == le_u32_at(le_u32_bytes(value), 0));
        },
        _ => {},
    }
}

/// Decoding the frame that `encode_response` makes for a response gives that
/// response back, with all status, position and speed bits, for every
/// address and every response.
pub proof fn law_response_round_trip(address: Address, response: Response)
    requires
        id_in_range(address.id()),
    ensures
        decode_response_spec(
            address,
            data_frame(address.id(), response_message(address.device_id(), response)),
        ) == Ok::<Option<Response>, DecodeError>(Some(response)),
{
    let data = response_message(address.device_id(), response);
    let frame = data_frame(address.id(), data);
    assert(matched_data_spec(address, frame, false) == Ok::<Option<Seq<u8>>, DecodeError>(
        Some(data),
    ));
    match response {
        Response::Position(value) => {
            lemma_u32_bytes_read_back(value);
            assert(le_u32_at(data, 3) == le_u32_at(le_u32_bytes(value), 0));
        },
        Response::Speed(value) => {
            lemma_u32_bytes_read_back(value as u32);
            lemma_speed_bits(value, value as u32);
            assert(le_u32_at(data, 3) == le_u32_at(le_u32_bytes(value as u32), 0));
        },
        Response::SetExtendedAddress(status) => {
            lemma_u32_bytes_read_back(status.0);
            assert(le_u32_at(data, 3) == le_u32_at(le_u32_bytes(status.0), 0));
        },
        Response::Ack { command, .. } => {
            law_wire_values_are_one_to_one();
            assert(ack_command_of(ack_function(command)) == Some(command));
        },
    }
}

/// A frame that decodes as a request is exactly the frame that
/// `encode_request` makes for that request, except that the extended-address
/// request may declare `LEN=4`: re-encoding writes the length byte as the
/// DLC. The request is within the protocol range, so it can be encoded.
pub proof fn law_decoded_request_reencodes(address: Address, frame: FrameView, request: Request)
    requires
        decode_request_spec(address, frame) == Ok::<Option<Request>, DecodeError>(Some(request)),
    ensures
        request_error(request) is None,
        frame.id == address.id(),
        frame.payload matches PayloadView::Data(data) && request_message(
            address.device_id(),
            request,
        ) == data.update(0, data.len() as u8),
{
    let data = frame.payload->Data_0;
    assert(matched_data_spec(address, frame, true) == Ok::<Option<Seq<u8>>, DecodeError>(
        Some(data),
    ));
    assert(parse_request(data) == Ok::<Option<Request>, DecodeError>(Some(request)));
    let function = data[2];
    law_wire_values_are_one_to_one();
    if function == SET_EXTENDED_ADDRESS || function == SET_POSITION {
        lemma_u32_value_written_back(data, 3);
    } else if function == SET_REPORTING_PERIOD || function == SET_SPEED_SAMPLE_TIME {
        lemma_u16_value_written_back(data, 3);
    }
    assert(request_message(address.device_id(), request) =~= data.update(0, data.len() as u8));
}

/// A frame that decodes as a response is exactly the frame that
/// `encode_response` makes for that response.
pub proof fn law_decoded_response_reencodes(
    address: Address,
    frame: FrameView,
    response: Response,
)
    requires
        decode_response_spec(address, frame) == Ok::<Option<Response>, DecodeError>(
            Some(response),
        ),
    ensures
        frame == data_frame(address.id(), response_message(address.device_id(), response)),
{
    let data = frame.payload->Data_0;
    assert(matched_data_spec(address, frame, false) == Ok::<Option<Seq<u8>>, DecodeError>(
        Some(data),
    ));
    assert(parse_response(data) == Ok::<Option<Response>, DecodeError>(Some(response)));
    let function = data[2];
    law_wire_values_are_one_to_one();
    if data.len() == 7 {
        lemma_u32_value_written_back(data, 3);
    }
    if function == READ_SPEED {
        lemma_speed_bits(0, le_u32_at(data, 3));
    }
    assert(response_message(address.device_id(), response) =~= data);
}

/// A valid Classic data frame with another identifier than the target
/// address is no message for it, whatever its data: both decoders give
/// `Ok(None)`. Standard and extended identifiers with equal raw values are
/// different identifiers.
pub proof fn law_other_identifiers_are_ignored(address: Address, id: FrameId, data: Seq<u8>)
    requires
        id_in_range(id),
        id != address.id(),
    ensures
        decode_request_spec(address, data_frame(id, data)) == Ok::<Option<Request>, DecodeError>(
            None,
        ),
        decode_response_spec(address, data_frame(id, data)) == Ok::<
            Option<Response>,
            DecodeError,
        >(None),
{
}

/// Remote frames and CAN FD frames with a valid identifier are rejected by
/// both decoders, whether or not the identifier is that of the target
/// address and however short an FD frame is.
pub proof fn law_remote_and_fd_frames_are_rejected(
    address: Address,
    id: FrameId,
    dlc: u8,
    data: Seq<u8>,
)
    requires
        id_in_range(id),
    ensures
        decode_request_spec(address, FrameView { id, payload: PayloadView::Remote { dlc } })
            == Err::<Option<Request>, DecodeError>(DecodeError::UnsupportedRemoteFrame),
        decode_response_spec(address, FrameView { id, payload: PayloadView::Remote { dlc } })
            == Err::<Option<Response>, DecodeError>(DecodeError::UnsupportedRemoteFrame),
        decode_request_spec(address, FrameView { id, payload: PayloadView::Fd(data) }) == Err::<
            Option<Request>,
            DecodeError,
        >(DecodeError::UnsupportedCanFd),
        decode_response_spec(address, FrameView { id, payload: PayloadView::Fd(data) }) == Err::<
            Option<Response>,
            DecodeError,
        >(DecodeError::UnsupportedCanFd),
{
}

/// A decoder reports a frame as no message (`Ok(None)`) only when its
/// identifier is not that of the target address, or when its function is
/// unknown in that direction after the whole header was checked: the
/// identifier, the length byte equal to the DLC and the device ID.
pub proof fn law_unrelated_only_for_other_identifier_or_unknown_function(
    address: Address,
    frame: FrameView,
)
    ensures
        decode_request_spec(address, frame) == Ok::<Option<Request>, DecodeError>(None) ==> (
        frame.id != address.id() || (frame.payload matches PayloadView::Data(data) && 3
            <= data.len() <= 8 && data[0] == data.len() && data[1] == address.device_id()
            && request_length(data[2]) is None)),
        decode_response_spec(address, frame) == Ok::<Option<Response>, DecodeError>(None) ==> (
        frame.id != address.id() || (frame.payload matches PayloadView::Data(data) && 3
            <= data.len() <= 8 && data[0] == data.len() && data[1] == address.device_id()
            && response_length(data[2]) is None)),
{
}

/// The extended-address request is the one message whose length byte may
/// differ from its DLC: seven request bytes declaring `LEN=4` decode as the
/// same bytes declaring `LEN=7`. The extended-address response has no such
/// exception: seven bytes declaring `LEN=4` are a length mismatch.
pub proof fn law_extended_address_request_length_exception(
    address: Address,
    id: FrameId,
    data: Seq<u8>,
)
    requires
        data.len() == 7,
        data[2] == SET_EXTENDED_ADDRESS,
    ensures
        decode_request_spec(address, data_frame(id, data.update(0, 4))) == decode_request_spec(
            address,
            data_frame(id, data.update(0, 7)),
        ),
        id_in_range(id) && id == address.id() ==> decode_response_spec(
            address,
            data_frame(id, data.update(0, 4)),
        ) == Err::<Option<Response>, DecodeError>(
            DecodeError::LengthMismatch { declared: 4, actual: 7 },
        ),
{
    let short = data.update(0, 4);
    let long = data.update(0, 7);
    if id_in_range(id) && id == address.id() && data[1] == address.device_id() {
        assert(matched_data_spec(address, data_frame(id, short), true) == Ok::<
            Option<Seq<u8>>,
            DecodeError,
        >(Some(short)));
        assert(matched_data_spec(address, data_frame(id, long), true) == Ok::<
            Option<Seq<u8>>,
            DecodeError,
        >(Some(long)));
        assert(parse_request(short) == parse_request(long));
    }
}

/// The wire layout of every request: `[LEN, DEVICE_ID, FUNC, DATA...]`
/// with the documented function codes, fixed parameters and parameter
/// bytes. Multi-byte values are written least significant byte first: the
/// bytes weighted by 1, 0x100, 0x1_0000 and 0x100_0000 add up to the value.
pub proof fn law_request_wire_layout(device_id: u8, byte: u8, short: u16, long: u32)
    ensures
        request_message(device_id, Request::ReadPosition) == seq![4u8, device_id, 0x01, 0],
        request_message(device_id, Request::SetStandardAddress(byte)) == seq![
            4u8,
            device_id,
            0x02,
            byte,
        ],
        request_message(device_id, Request::SetZero) == seq![4u8, device_id, 0x06, 0],
        request_message(device_id, Request::ReadSpeed) == seq![4u8, device_id, 0x0a, 0],
        request_message(device_id, Request::SetMidpoint) == seq![4u8, device_id, 0x0c, 1],
        request_message(device_id, Request::SetFiveTurns) == seq![4u8, device_id, 0x0f, 1],
        request_message(device_id, Request::SetBaudRate(BaudRate::Kbps500)) == seq![4u8, device_id, 0x03, 0],
        request_message(device_id, Request::SetBaudRate(BaudRate::Mbps1)) == seq![4u8, device_id, 0x03, 1],
        request_message(device_id, Request::SetBaudRate(BaudRate::Kbps250)) == seq![4u8, device_id, 0x03, 2],
        request_message(device_id, Request::SetBaudRate(BaudRate::Kbps125)) == seq![4u8, device_id, 0x03, 3],
        request_message(device_id, Request::SetBaudRate(BaudRate::Kbps100)) == seq![4u8, device_id, 0x03, 4],
        request_message(device_id, Request::SetReportingMode(ReportingMode::Query)) == seq![4u8, device_id, 0x04, 0],
        request_message(device_id, Request::SetReportingMode(ReportingMode::StandardPosition)) == seq![4u8, device_id, 0x04, 0xaa],
        request_message(device_id, Request::SetReportingMode(ReportingMode::StandardSignedSpeed)) == seq![4u8, device_id, 0x04, 0x02],
        request_message(device_id, Request::SetReportingMode(ReportingMode::StandardUnsignedSpeed)) == seq![4u8, device_id, 0x04, 0x07],
        request_message(device_id, Request::SetReportingMode(ReportingMode::ExtendedPosition)) == seq![4u8, device_id, 0x04, 0x18],
        request_message(device_id, Request::SetReportingMode(ReportingMode::ExtendedSignedSpeed)) == seq![4u8, device_id, 0x04, 0x12],
        request_message(device_id, Request::SetReportingMode(ReportingMode::ExtendedUnsignedSpeed)) == seq![4u8, device_id, 0x04, 0x17],
        request_message(device_id, Request::SetDirection(Direction::Clockwise)) == seq![4u8, device_id, 0x07, 0],
        request_message(device_id, Request::SetDirection(Direction::Counterclockwise)) == seq![4u8, device_id, 0x07, 1],
        ({
            let m = request_message(device_id, Request::SetReportingPeriod(short));
            &&& m.len() == 5
            &&& m.subrange(0, 3) == seq![5u8, device_id, 0x05]
            &&& m[3] + m[4] * 0x100 == short
        }),
        ({
            let m = request_message(device_id, Request::SetSpeedSampleTime(short));
            &&& m.len() == 5
            &&& m.subrange(0, 3) == seq![5u8, device_id, 0x0b]
            &&& m[3] + m[4] * 0x100 == short
        }),
        ({
            let m = request_message(device_id, Request::SetExtendedAddress(long));
            &&& m.len() == 7
            &&& m.subrange(0, 3) == seq![7u8, device_id, 0x22]
            &&& m[3] + m[4] * 0x100 + m[5] * 0x1_0000 + m[6] * 0x100_0000 == long
        }),
        ({
            let m = request_message(device_id, Request::SetPosition(long));
            &&& m.len() == 7
            &&& m.subrange(0, 3) == seq![7u8, device_id, 0x0d]
            &&& m[3] + m[4] * 0x100 + m[5] * 0x1_0000 + m[6] * 0x100_0000 == long
        }),
{
    lemma_u16_bytes_read_back(short);
    lemma_u32_bytes_read_back(long);
    assert(request_message(device_id, Request::SetReportingPeriod(short)).subrange(0, 3)
        =~= seq![5u8, device_id, 0x05]);
    assert(request_message(device_id, Request::SetSpeedSampleTime(short)).subrange(0, 3)
        =~= seq![5u8, device_id, 0x0b]);
    assert(request_message(device_id, Request::SetExtendedAddress(long)).subrange(0, 3)
        =~= seq![7u8, device_id, 0x22]);
    assert(request_message(device_id, Request::SetPosition(long)).subrange(0, 3)
        =~= seq![7u8, device_id, 0x0d]);
    assert(request_message(device_id, Request::ReadPosition) =~= seq![4u8, device_id, 0x01, 0]);
    assert(request_message(device_id, Request::SetStandardAddress(byte)) =~= seq![4u8, device_id, 0x02, byte]);
    assert(request_message(device_id, Request::SetZero) =~= seq![4u8, device_id, 0x06, 0]);
    assert(request_message(device_id, Request::ReadSpeed) =~= seq![4u8, device_id, 0x0a, 0]);
    assert(request_message(device_id, Request::SetMidpoint) =~= seq![4u8, device_id, 0x0c, 1]);
    assert(request_message(device_id, Request::SetFiveTurns) =~= seq![4u8, device_id, 0x0f, 1]);
    assert(request_message(device_id, Request::SetBaudRate(BaudRate::Kbps500)) =~= seq![4u8, device_id, 0x03, 0]);
    assert(request_message(device_id, Request::SetBaudRate(BaudRate::Mbps1)) =~= seq![4u8, device_id, 0x03, 1]);
    assert(request_message(device_id, Request::SetBaudRate(BaudRate::Kbps250)) =~= seq![4u8, device_id, 0x03, 2]);
    assert(request_message(device_id, Request::SetBaudRate(BaudRate::Kbps125)) =~= seq![4u8, device_id, 0x03, 3]);
    assert(request_message(device_id, Request::SetBaudRate(BaudRate::Kbps100)) =~= seq![4u8, device_id, 0x03, 4]);
    assert(request_message(device_id, Request::SetReportingMode(ReportingMode::Query)) =~= seq![4u8, device_id, 0x04, 0]);
    assert(request_message(device_id, Request::SetReportingMode(ReportingMode::StandardPosition)) =~= seq![4u8, device_id, 0x04, 0xaa]);
    assert(request_message(device_id, Request::SetReportingMode(ReportingMode::StandardSignedSpeed)) =~= seq![4u8, device_id, 0x04, 0x02]);
    assert(request_message(device_id, Request::SetReportingMode(ReportingMode::StandardUnsignedSpeed)) =~= seq![4u8, device_id, 0x04, 0x07]);
    assert(request_message(device_id, Request::SetReportingMode(ReportingMode::ExtendedPosition)) =~= seq![4u8, device_id, 0x04, 0x18]);
    assert(request_message(device_id, Request::SetReportingMode(ReportingMode::ExtendedSignedSpeed)) =~= seq![4u8, device_id, 0x04, 0x12]);
    assert(request_message(device_id, Request::SetReportingMode(ReportingMode::ExtendedUnsignedSpeed)) =~= seq![4u8, device_id, 0x04, 0x17]);
    assert(request_message(device_id, Request::SetDirection(Direction::Clockwise)) =~= seq![4u8, device_id, 0x07, 0]);
    assert(request_message(device_id, Request::SetDirection(Direction::Counterclockwise)) =~= seq![4u8, device_id, 0x07, 1]);
}

/// The wire layout of every response: position, speed and the 32-bit
/// status are four bytes least significant first whose weighted sum is the
/// value (the speed taken as its 32-bit pattern); an acknowledgement is the
/// acknowledged function code followed by the raw status byte, unchanged.
pub proof fn law_response_wire_layout(device_id: u8, value: u32, speed: i32, status: u8, wide: u32)
    ensures
        ({
            let m = response_message(device_id, Response::Position(value));
            &&& m.len() == 7
            &&& m.subrange(0, 3) == seq![7u8, device_id, 0x01]
            &&& m[3] + m[4] * 0x100 + m[5] * 0x1_0000 + m[6] * 0x100_0000 == value
        }),
        ({
            let m = response_message(device_id, Response::Speed(speed));
            &&& m.len() == 7
            &&& m.subrange(0, 3) == seq![7u8, device_id, 0x0a]
            &&& m[3] + m[4] * 0x100 + m[5] * 0x1_0000 + m[6] * 0x100_0000 == (speed as u32)
        }),
        ({
            let m = response_message(device_id, Response::SetExtendedAddress(Status32(wide)));
            &&& m.len() == 7
            &&& m.subrange(0, 3) == seq![7u8, device_id, 0x22]
            &&& m[3] + m[4] * 0x100 + m[5] * 0x1_0000 + m[6] * 0x100_0000 == wide
        }),
        response_message(device_id, Response::Ack { command: AckCommand::SetStandardAddress, status: Status(status) }) == seq![4u8, device_id, 0x02, status],
        response_message(device_id, Response::Ack { command: AckCommand::SetBaudRate, status: Status(status) }) == seq![4u8, device_id, 0x03, status],
        response_message(device_id, Response::Ack { command: AckCommand::SetReportingMode, status: Status(status) }) == seq![4u8, device_id, 0x04, status],
        response_message(device_id, Response::Ack { command: AckCommand::SetReportingPeriod, status: Status(status) }) == seq![4u8, device_id, 0x05, status],
        response_message(device_id, Response::Ack { command: AckCommand::SetZero, status: Status(status) }) == seq![4u8, device_id, 0x06, status],
        response_message(device_id, Response::Ack { command: AckCommand::SetDirection, status: Status(status) }) == seq![4u8, device_id, 0x07, status],
        response_message(device_id, Response::Ack { command: AckCommand::SetSpeedSampleTime, status: Status(status) }) == seq![4u8, device_id, 0x0b, status],
        response_message(device_id, Response::Ack { command: AckCommand::SetMidpoint, status: Status(status) }) == seq![4u8, device_id, 0x0c, status],
        response_message(device_id, Response::Ack { command: AckCommand::SetPosition, status: Status(status) }) == seq![4u8, device_id, 0x0d, status],
        response_message(device_id, Response::Ack { command: AckCommand::SetFiveTurns, status: Status(status) }) == seq![4u8, device_id, 0x0f, status],
{
    lemma_u32_bytes_read_back(value);
    lemma_u32_bytes_read_back(speed as u32);
    lemma_u32_bytes_read_back(wide);
    assert(response_message(device_id, Response::Position(value)).subrange(0, 3) =~= seq![7u8, device_id, 0x01]);
    assert(response_message(device_id, Response::Speed(speed)).subrange(0, 3) =~= seq![7u8, device_id, 0x0a]);
    assert(response_message(device_id, Response::SetExtendedAddress(Status32(wide))).subrange(0, 3) =~= seq![7u8, device_id, 0x22]);
    assert(response_message(device_id, Response::Ack { command: AckCommand::SetStandardAddress, status: Status(status) }) =~= seq![4u8, device_id, 0x02, status]);
    assert(response_message(device_id, Response::Ack { command: AckCommand::SetBaudRate, status: Status(status) }) =~= seq![4u8, device_id, 0x03, status]);
    assert(response_message(device_id, Response::Ack { command: AckCommand::SetReportingMode, status: Status(status) }) =~= seq![4u8, device_id, 0x04, status]);
    assert(response_message(device_id, Response::Ack { command: AckCommand::SetReportingPeriod, status: Status(status) }) =~= seq![4u8, device_id, 0x05, status]);
    assert(response_message(device_id, Response::Ack { command: AckCommand::SetZero, status: Status(status) }) =~= seq![4u8, device_id, 0x06, status]);
    assert(response_message(device_id, Response::Ack { command: AckCommand::SetDirection, status: Status(status) }) =~= seq![4u8, device_id, 0x07, status]);
    assert(response_message(device_id, Response::Ack { command: AckCommand::SetSpeedSampleTime, status: Status(status) }) =~= seq![4u8, device_id, 0x0b, status]);
    assert(response_message(device_id, Response::Ack { command: AckCommand::SetMidpoint, status: Status(status) }) =~= seq![4u8, device_id, 0x0c, status]);
    assert(response_message(device_id, Response::Ack { command: AckCommand::SetPosition, status: Status(status) }) =~= seq![4u8, device_id, 0x0d, status]);
    assert(response_message(device_id, Response::Ack { command: AckCommand::SetFiveTurns, status: Status(status) }) =~= seq![4u8, device_id, 0x0f, status]);
}

/// A request is out of the protocol range exactly for a new standard
/// address `0`, an extended address above `0x1fff_ffff` and a reporting
/// period below 50 microseconds; every other request can be encoded.
pub proof fn law_request_ranges(request: Request)
    ensures
        request_error(request) is Some <==> (match request {
            Request::SetStandardAddress(value) => value == 0,
            Request::SetExtendedAddress(value) => value > 0x1fff_ffff,
            Request::SetReportingPeriod(value) => value < 50,
            _ => false,
        }),
        request_error(request) matches Some(e) ==> e == (match request {
            Request::SetStandardAddress(value) => EncodeError::InvalidStandardAddress(value),
            Request::SetExtendedAddress(value) => EncodeError::InvalidExtendedCanId(value),
            Request::SetReportingPeriod(value) => EncodeError::InvalidReportingPeriod(value),
            _ => e,
        }),
{
}

/// Decoding a well-formed response frame reads every field from its bytes:
/// position, speed and the 32-bit status are the little-endian numbers of
/// their four bytes (the speed as that 32-bit pattern), and an
/// acknowledgement keeps the raw status byte, for every byte value.
pub proof fn law_response_fields_read_from_bytes(
    address: Address,
    b0: u8,
    b1: u8,
    b2: u8,
    b3: u8,
    function: u8,
)
    requires
        id_in_range(address.id()),
    ensures
        decode_response_spec(
            address,
            data_frame(address.id(), seq![7u8, address.device_id(), 0x01, b0, b1, b2, b3]),
        ) matches Ok(Some(Response::Position(value))) && value == b0 + b1 * 0x100 + b2
            * 0x1_0000 + b3 * 0x100_0000,
        decode_response_spec(
            address,
            data_frame(address.id(), seq![7u8, address.device_id(), 0x0a, b0, b1, b2, b3]),
        ) matches Ok(Some(Response::Speed(value))) && (value as u32) == b0 + b1 * 0x100 + b2
            * 0x1_0000 + b3 * 0x100_0000,
        decode_response_spec(
            address,
            data_frame(address.id(), seq![7u8, address.device_id(), 0x22, b0, b1, b2, b3]),
        ) matches Ok(Some(Response::SetExtendedAddress(Status32(value)))) && value == b0 + b1
            * 0x100 + b2 * 0x1_0000 + b3 * 0x100_0000,
        function == 0x02 || function == 0x03 || function == 0x04 || function == 0x05 || function
            == 0x06 || function == 0x07 || function == 0x0b || function == 0x0c || function
            == 0x0d || function == 0x0f ==> (decode_response_spec(
            address,
            data_frame(address.id(), seq![4u8, address.device_id(), function, b0]),
        ) matches Ok(Some(Response::Ack { command, status })) && status == Status(b0)
            && ack_function(command) == function),
{
    let d = address.device_id();
    let id = address.id();
    let position = seq![7u8, d, 0x01, b0, b1, b2, b3];
    let speed = seq![7u8, d, 0x0a, b0, b1, b2, b3];
    let wide = seq![7u8, d, 0x22, b0, b1, b2, b3];
    let ack = seq![4u8, d, function, b0];
    assert(matched_data_spec(address, data_frame(id, position), false) == Ok::<Option<Seq<u8>>, DecodeError>(Some(position)));
    assert(matched_data_spec(address, data_frame(id, speed), false) == Ok::<Option<Seq<u8>>, DecodeError>(Some(speed)));
    assert(matched_data_spec(address, data_frame(id, wide), false) == Ok::<Option<Seq<u8>>, DecodeError>(Some(wide)));
    assert(matched_data_spec(address, data_frame(id, ack), false) == Ok::<Option<Seq<u8>>, DecodeError>(Some(ack)));
    lemma_speed_bits(0, le_u32_at(speed, 3));
    law_wire_values_are_one_to_one();
}

/// Decoding a well-formed request frame reads every parameter from its
/// bytes, for every byte value: a new standard address is its byte and is
/// refused only when `0`; the reporting period and the speed sample time are
/// the little-endian numbers of their two bytes, the period refused only
/// below 50; the extended address and the position are the little-endian
/// numbers of their four bytes, the address refused only above
/// `0x1fff_ffff`.
pub proof fn law_request_fields_read_from_bytes(address: Address, b0: u8, b1: u8, b2: u8, b3: u8)
    requires
        id_in_range(address.id()),
    ensures
        decode_request_spec(
            address,
            data_frame(address.id(), seq![4u8, address.device_id(), 0x02, b0]),
        ) == (if b0 == 0 {
            Err::<Option<Request>, DecodeError>(DecodeError::InvalidStandardAddress(0))
        } else {
            Ok(Some(Request::SetStandardAddress(b0)))
        }),
        ({
            let value = b0 + b1 * 0x100;
            let result = decode_request_spec(
                address,
                data_frame(address.id(), seq![5u8, address.device_id(), 0x05, b0, b1]),
            );
            &&& value < 50 ==> (result matches Err(DecodeError::InvalidReportingPeriod(v)) && v
                == value)
            &&& value >= 50 ==> (result matches Ok(Some(Request::SetReportingPeriod(v))) && v
                == value)
        }),
        decode_request_spec(
            address,
            data_frame(address.id(), seq![5u8, address.device_id(), 0x0b, b0, b1]),
        ) matches Ok(Some(Request::SetSpeedSampleTime(v))) && v == b0 + b1 * 0x100,
        ({
            let value = b0 + b1 * 0x100 + b2 * 0x1_0000 + b3 * 0x100_0000;
            let result = decode_request_spec(
                address,
                data_frame(address.id(), seq![7u8, address.device_id(), 0x22, b0, b1, b2, b3]),
            );
            &&& value > 0x1fff_ffff ==> (result matches Err(DecodeError::InvalidExtendedCanId(v))
                && v == value)
            &&& value <= 0x1fff_ffff ==> (result matches Ok(Some(Request::SetExtendedAddress(v)))
                && v == value)
        }),
        decode_request_spec(
            address,
            data_frame(address.id(), seq![7u8, address.device_id(), 0x0d, b0, b1, b2, b3]),
        ) matches Ok(Some(Request::SetPosition(v))) && v == b0 + b1 * 0x100 + b2 * 0x1_0000 + b3
            * 0x100_0000,
{
    let d = address.device_id();
    let id = address.id();
    let standard = seq![4u8, d, 0x02, b0];
    let period = seq![5u8, d, 0x05, b0, b1];
    let sample = seq![5u8, d, 0x0b, b0, b1];
    let extended = seq![7u8, d, 0x22, b0, b1, b2, b3];
    let position = seq![7u8, d, 0x0d, b0, b1, b2, b3];
    assert(matched_data_spec(address, data_frame(id, standard), true) == Ok::<Option<Seq<u8>>, DecodeError>(Some(standard)));
    assert(matched_data_spec(address, data_frame(id, period), true) == Ok::<Option<Seq<u8>>, DecodeError>(Some(period)));
    assert(matched_data_spec(address, data_frame(id, sample), true) == Ok::<Option<Seq<u8>>, DecodeError>(Some(sample)));
    assert(matched_data_spec(address, data_frame(id, extended), true) == Ok::<Option<Seq<u8>>, DecodeError>(Some(extended)));
    assert(matched_data_spec(address, data_frame(id, position), true) == Ok::<Option<Seq<u8>>, DecodeError>(Some(position)));
}

/// A native header length is valid exactly when it fits its format: at
/// most eight bytes for a Classic frame, and for a CAN FD frame one of the
/// CAN FD data lengths `0..=8`, 12, 16, 20, 24, 32, 48 and 64.
pub proof fn law_native_header_lengths(header: HeaderFields)
    ensures
        canonical_fd_length(header.len) <==> (header.len <= 8 || header.len == 12 || header.len
            == 16 || header.len == 20 || header.len == 24 || header.len == 32 || header.len == 48
            || header.len == 64),
        header.fdcan ==> (header_length_valid(header) <==> (header.len <= 8 || header.len == 12
            || header.len == 16 || header.len == 20 || header.len == 24 || header.len == 32
            || header.len == 48 || header.len == 64)),
        !header.fdcan ==> (header_length_valid(header) <==> header.len <= 8),
        header_length_valid(header) && header.len <= 64 ==> frame_from_parts(
            header,
            Seq::new(64, |i: int| 0u8),
        ) is Some,
{
}

} // verus!
