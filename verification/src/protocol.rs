//! BRT CAN application protocol: stateless encoding and decoding of
//! addresses, function codes and data fields.
//!
//! A message is `[LEN, DEVICE_ID, FUNC, DATA...]`, where `LEN` counts the
//! whole message including itself and equals the CAN DLC (the one exception
//! is the extended-address request, which may also be decoded with `LEN=4`).

use vstd::prelude::*;

use crate::frame::{
    id_in_range, EncodedFrame, FrameId, FramePayload, FrameRef, FrameView, PayloadView,
    MAX_EXTENDED_ID, MAX_STANDARD_ID,
};
use crate::wire::{
    le_u16_at, le_u16_bytes, le_u32_at, le_u32_bytes, put_u16, put_u32, read_u16, read_u32,
};

verus! {

/// Function code: read position.
pub const READ_POSITION: u8 = 0x01;
/// Function code: set the standard address.
pub const SET_STANDARD_ADDRESS: u8 = 0x02;
/// Function code: set the extended address.
pub const SET_EXTENDED_ADDRESS: u8 = 0x22;
/// Function code: set the baud rate.
pub const SET_BAUD_RATE: u8 = 0x03;
/// Function code: set the reporting mode.
pub const SET_REPORTING_MODE: u8 = 0x04;
/// Function code: set the reporting period.
pub const SET_REPORTING_PERIOD: u8 = 0x05;
/// Function code: set the current position as zero.
pub const SET_ZERO: u8 = 0x06;
/// Function code: set the counting direction.
pub const SET_DIRECTION: u8 = 0x07;
/// Function code: read speed.
pub const READ_SPEED: u8 = 0x0a;
/// Function code: set the speed sample time.
pub const SET_SPEED_SAMPLE_TIME: u8 = 0x0b;
/// Function code: set the current position as midpoint.
pub const SET_MIDPOINT: u8 = 0x0c;
/// Function code: set the current position value.
pub const SET_POSITION: u8 = 0x0d;
/// Function code: set the current position as the five-turn value.
pub const SET_FIVE_TURNS: u8 = 0x0f;

/// A checked protocol target address.
///
/// For a standard address the node number and the standard CAN identifier
/// are the same byte. An extended address keeps the 29-bit CAN identifier
/// and the device ID of the message as two independent fields. `0` is a
/// valid current address; only a new standard address may not be `0`.
#[derive(Clone, Copy, Debug, PartialEq, Eq)]
pub struct Address {
    id: FrameId,
    device_id: u8,
}

impl Address {
    /// The CAN identifier of the address.
    pub closed spec fn spec_id(self) -> FrameId {
        self.id
    }

    /// The device ID carried in the message data.
    pub closed spec fn spec_device_id(self) -> u8 {
        self.device_id
    }

    /// An address always holds an identifier within the range of its format.
    #[verifier::type_invariant]
    spec fn wf(self) -> bool {
        id_in_range(self.id)
    }

    /// Creates a standard CAN address; `device_id` is kept as is, so the
    /// current address `0` can be represented.
    pub fn standard(device_id: u8) -> (address: Self)
        ensures
            address.id() == FrameId::Standard(device_id as u16),
            address.device_id() == device_id,
    {
        Self { id: FrameId::Standard(device_id as u16), device_id }
    }

    /// Creates an extended CAN address from a 29-bit CAN identifier and the
    /// independent device ID of the message data. The relation between the
    /// two (the device ID is usually the low byte of the identifier) is
    /// neither derived nor checked.
    pub fn extended(can_id: u32, device_id: u8) -> (result: Result<Self, EncodeError>)
        ensures
            result is Ok <==> can_id <= MAX_EXTENDED_ID,
            result matches Ok(address) ==> address.id() == FrameId::Extended(can_id)
                && address.device_id() == device_id,
            result matches Err(e) ==> e == EncodeError::InvalidExtendedCanId(can_id),
    {
        if can_id <= MAX_EXTENDED_ID {
            Ok(Self { id: FrameId::Extended(can_id), device_id })
        } else {
            Err(EncodeError::InvalidExtendedCanId(can_id))
        }
    }

    /// Returns the CAN identifier and its format.
    #[verifier::when_used_as_spec(spec_id)]
    pub fn id(self) -> (id: FrameId)
        ensures
            id == self.spec_id(),
            id_in_range(id),
    {
        proof {
            use_type_invariant(&self);
        }
        self.id
    }

    /// Returns the device ID of the message data.
    #[verifier::when_used_as_spec(spec_device_id)]
    pub fn device_id(self) -> (device_id: u8)
        ensures
            device_id == self.spec_device_id(),
    {
        self.device_id
    }
}

/// The five CAN baud rates of the protocol.
#[derive(Clone, Copy, Debug, PartialEq, Eq)]
pub enum BaudRate {
    /// 500 kbit/s, the device default; wire value `0x00`.
    Kbps500,
    /// 1 Mbit/s; wire value `0x01`.
    Mbps1,
    /// 250 kbit/s; wire value `0x02`.
    Kbps250,
    /// 125 kbit/s; wire value `0x03`.
    Kbps125,
    /// 100 kbit/s; wire value `0x04`.
    Kbps100,
}

/// The seven reporting modes of the protocol.
#[derive(Clone, Copy, Debug, PartialEq, Eq)]
pub enum ReportingMode {
    /// Query mode; wire value `0x00`.
    Query,
    /// Standard frames report the position; wire value `0xaa`.
    StandardPosition,
    /// Standard frames report the signed speed; wire value `0x02`.
    StandardSignedSpeed,
    /// Standard frames report the unsigned speed; wire value `0x07`.
    StandardUnsignedSpeed,
    /// Extended frames report the position; wire value `0x18`.
    ExtendedPosition,
    /// Extended frames report the signed speed; wire value `0x12`.
    ExtendedSignedSpeed,
    /// Extended frames report the unsigned speed; wire value `0x17`.
    ExtendedUnsignedSpeed,
}

/// The direction in which the encoder count increases.
#[derive(Clone, Copy, Debug, PartialEq, Eq)]
pub enum Direction {
    /// Clockwise; wire value `0x00`.
    Clockwise,
    /// Counterclockwise; wire value `0x01`.
    Counterclockwise,
}

/// Every request the host sends.
#[derive(Clone, Copy, Debug, PartialEq, Eq)]
pub enum Request {
    /// Read the position; fixed parameter `0x00`.
    ReadPosition,
    /// Set a new standard CAN address in `1..=255`.
    SetStandardAddress(u8),
    /// Set a new 29-bit extended CAN address in `0..=0x1fff_ffff`; the
    /// parameter is little-endian, encoded with `LEN=7` and decoded from
    /// `LEN=7` or `LEN=4` with DLC 7.
    SetExtendedAddress(u32),
    /// Set the CAN baud rate.
    SetBaudRate(BaudRate),
    /// Set the reporting mode.
    SetReportingMode(ReportingMode),
    /// Set the reporting period in microseconds, `50..=65535`, little-endian.
    SetReportingPeriod(u16),
    /// Set the current position as zero; fixed parameter `0x00`.
    SetZero,
    /// Set the counting direction.
    SetDirection(Direction),
    /// Read the speed; fixed parameter `0x00`.
    ReadSpeed,
    /// Set the speed sample time in milliseconds, `0..=65535`, little-endian;
    /// `1000` is written as the bytes `0xe8, 0x03`.
    SetSpeedSampleTime(u16),
    /// Set the current position as midpoint; fixed parameter `0x01`.
    SetMidpoint,
    /// Set the current position value, a full little-endian `u32`; the device
    /// range is checked by the caller. `74565` is written as the bytes
    /// `0x45, 0x23, 0x01, 0x00`.
    SetPosition(u32),
    /// Set the current position as the five-turn value; fixed parameter `0x01`.
    SetFiveTurns,
}

/// The ordinary write functions that answer with a one-byte status.
#[derive(Clone, Copy, Debug, PartialEq, Eq)]
pub enum AckCommand {
    /// Acknowledges setting the standard address (`0x02`).
    SetStandardAddress,
    /// Acknowledges setting the baud rate (`0x03`).
    SetBaudRate,
    /// Acknowledges setting the reporting mode (`0x04`).
    SetReportingMode,
    /// Acknowledges setting the reporting period (`0x05`).
    SetReportingPeriod,
    /// Acknowledges setting zero (`0x06`).
    SetZero,
    /// Acknowledges setting the direction (`0x07`).
    SetDirection,
    /// Acknowledges setting the speed sample time (`0x0b`).
    SetSpeedSampleTime,
    /// Acknowledges setting the midpoint (`0x0c`).
    SetMidpoint,
    /// Acknowledges setting the position (`0x0d`).
    SetPosition,
    /// Acknowledges setting the five-turn value (`0x0f`).
    SetFiveTurns,
}

/// The raw eight-bit status of an ordinary write: `0` is success, any other
/// value an error code, kept as is.
#[derive(Clone, Copy, Debug, PartialEq, Eq)]
pub struct Status(pub u8);

/// The raw 32-bit status of setting the extended address (little-endian on
/// the wire): `0` is success, any other value an error code, kept as is.
#[derive(Clone, Copy, Debug, PartialEq, Eq)]
pub struct Status32(pub u32);

/// Every message a device sends.
#[derive(Clone, Copy, Debug, PartialEq, Eq)]
pub enum Response {
    /// Raw position, a full little-endian `u32`.
    Position(u32),
    /// Raw signed speed, a full little-endian `i32`.
    Speed(i32),
    /// One-byte status of an ordinary write.
    Ack {
        /// The acknowledged write function.
        command: AckCommand,
        /// The raw status returned by the device.
        status: Status,
    },
    /// Full 32-bit status of setting the extended address.
    SetExtendedAddress(Status32),
}

/// A value that cannot be represented as a CAN frame.
#[derive(Clone, Copy, Debug, PartialEq, Eq)]
pub enum EncodeError {
    /// The 29-bit extended CAN identifier exceeds `0x1fff_ffff`.
    InvalidExtendedCanId(u32),
    /// The new standard address is `0`; only `1..=255` is allowed.
    InvalidStandardAddress(u8),
    /// The reporting period is below the minimum of 50 microseconds.
    InvalidReportingPeriod(u16),
}

/// A frame that cannot be read as a protocol message.
#[allow(inconsistent_fields)]
#[derive(Clone, Copy, Debug, PartialEq, Eq)]
pub enum DecodeError {
    /// The standard CAN identifier exceeds 11 bits.
    InvalidStandardCanId(u16),
    /// The extended CAN identifier exceeds 29 bits.
    InvalidExtendedCanId(u32),
    /// A Classic remote frame, which the protocol does not accept.
    UnsupportedRemoteFrame,
    /// A CAN FD frame, which the protocol does not accept.
    UnsupportedCanFd,
    /// A matched Classic data frame carries more than eight bytes.
    DataLengthExceedsClassicCan(usize),
    /// A matched data frame lacks the length, device ID and function bytes.
    IncompleteHeader {
        /// Number of data bytes of the frame.
        actual: usize,
    },
    /// The length byte differs from the number of valid data bytes.
    LengthMismatch {
        /// The length in the first message byte.
        declared: u8,
        /// The number of valid data bytes given by the DLC.
        actual: usize,
    },
    /// The length byte exceeds the eight bytes of Classic CAN.
    DeclaredLengthExceedsClassicCan(u8),
    /// The device ID of a matched frame differs from the target address.
    DeviceIdMismatch {
        /// The device ID of the [`Address`].
        expected: u8,
        /// The device ID in the message.
        actual: u8,
    },
    /// The message length of a known function does not fit its definition
    /// in this direction.
    InvalidLength {
        /// Function code.
        function: u8,
        /// The defined message length.
        expected: u8,
        /// The actual message length.
        actual: u8,
    },
    /// A fixed request parameter has another value than defined.
    InvalidFixedParameter {
        /// Function code.
        function: u8,
        /// The defined fixed parameter.
        expected: u8,
        /// The parameter in the message.
        actual: u8,
    },
    /// The new standard address is `0`; only `1..=255` is allowed.
    InvalidStandardAddress(u8),
    /// An undefined raw baud rate.
    InvalidBaudRate(u8),
    /// An undefined raw reporting mode.
    InvalidReportingMode(u8),
    /// An undefined raw direction.
    InvalidDirection(u8),
    /// The reporting period is below the minimum of 50 microseconds.
    InvalidReportingPeriod(u16),
}

// ---------------------------------------------------------------------------
// Wire values of the enumerations.
// ---------------------------------------------------------------------------

/// The wire value of a baud rate.
pub open spec fn baud_rate_code(value: BaudRate) -> u8 {
    match value {
        BaudRate::Kbps500 => 0,
        BaudRate::Mbps1 => 1,
        BaudRate::Kbps250 => 2,
        BaudRate::Kbps125 => 3,
        BaudRate::Kbps100 => 4,
    }
}

/// The baud rate with wire value `code`, if there is one.
pub open spec fn baud_rate_of(code: u8) -> Option<BaudRate> {
    if code == 0 {
        Some(BaudRate::Kbps500)
    } else if code == 1 {
        Some(BaudRate::Mbps1)
    } else if code == 2 {
        Some(BaudRate::Kbps250)
    } else if code == 3 {
        Some(BaudRate::Kbps125)
    } else if code == 4 {
        Some(BaudRate::Kbps100)
    } else {
        None
    }
}

/// The wire value of a reporting mode.
pub open spec fn reporting_mode_code(value: ReportingMode) -> u8 {
    match value {
        ReportingMode::Query => 0,
        ReportingMode::StandardPosition => 0xaa,
        ReportingMode::StandardSignedSpeed => 2,
        ReportingMode::StandardUnsignedSpeed => 7,
        ReportingMode::ExtendedPosition => 0x18,
        ReportingMode::ExtendedSignedSpeed => 0x12,
        ReportingMode::ExtendedUnsignedSpeed => 0x17,
    }
}

/// The reporting mode with wire value `code`, if there is one.
pub open spec fn reporting_mode_of(code: u8) -> Option<ReportingMode> {
    if code == 0 {
        Some(ReportingMode::Query)
    } else if code == 0xaa {
        Some(ReportingMode::StandardPosition)
    } else if code == 2 {
        Some(ReportingMode::StandardSignedSpeed)
    } else if code == 7 {
        Some(ReportingMode::StandardUnsignedSpeed)
    } else if code == 0x18 {
        Some(ReportingMode::ExtendedPosition)
    } else if code == 0x12 {
        Some(ReportingMode::ExtendedSignedSpeed)
    } else if code == 0x17 {
        Some(ReportingMode::ExtendedUnsignedSpeed)
    } else {
        None
    }
}

/// The wire value of a direction.
pub open spec fn direction_code(value: Direction) -> u8 {
    match value {
        Direction::Clockwise => 0,
        Direction::Counterclockwise => 1,
    }
}

/// The direction with wire value `code`, if there is one.
pub open spec fn direction_of(code: u8) -> Option<Direction> {
    if code == 0 {
        Some(Direction::Clockwise)
    } else if code == 1 {
        Some(Direction::Counterclockwise)
    } else {
        None
    }
}

/// The function code that an acknowledgement answers.
pub open spec fn ack_function(value: AckCommand) -> u8 {
    match value {
        AckCommand::SetStandardAddress => SET_STANDARD_ADDRESS,
        AckCommand::SetBaudRate => SET_BAUD_RATE,
        AckCommand::SetReportingMode => SET_REPORTING_MODE,
        AckCommand::SetReportingPeriod => SET_REPORTING_PERIOD,
        AckCommand::SetZero => SET_ZERO,
        AckCommand::SetDirection => SET_DIRECTION,
        AckCommand::SetSpeedSampleTime => SET_SPEED_SAMPLE_TIME,
        AckCommand::SetMidpoint => SET_MIDPOINT,
        AckCommand::SetPosition => SET_POSITION,
        AckCommand::SetFiveTurns => SET_FIVE_TURNS,
    }
}

/// The acknowledged write function with function code `function`, if any.
pub open spec fn ack_command_of(function: u8) -> Option<AckCommand> {
    if function == SET_STANDARD_ADDRESS {
        Some(AckCommand::SetStandardAddress)
    } else if function == SET_BAUD_RATE {
        Some(AckCommand::SetBaudRate)
    } else if function == SET_REPORTING_MODE {
        Some(AckCommand::SetReportingMode)
    } else if function == SET_REPORTING_PERIOD {
        Some(AckCommand::SetReportingPeriod)
    } else if function == SET_ZERO {
        Some(AckCommand::SetZero)
    } else if function == SET_DIRECTION {
        Some(AckCommand::SetDirection)
    } else if function == SET_SPEED_SAMPLE_TIME {
        Some(AckCommand::SetSpeedSampleTime)
    } else if function == SET_MIDPOINT {
        Some(AckCommand::SetMidpoint)
    } else if function == SET_POSITION {
        Some(AckCommand::SetPosition)
    } else if function == SET_FIVE_TURNS {
        Some(AckCommand::SetFiveTurns)
    } else {
        None
    }
}

// ---------------------------------------------------------------------------
// Message layout.
// ---------------------------------------------------------------------------

/// The message `[LEN, DEVICE_ID, FUNC, DATA...]`, where `LEN` is the length
/// of the whole message.
pub open spec fn message(device_id: u8, function: u8, parameter: Seq<u8>) -> Seq<u8> {
    seq![(parameter.len() + 3) as u8, device_id, function] + parameter
}

/// The function code of a request.
pub open spec fn request_function(request: Request) -> u8 {
    match request {
        Request::ReadPosition => READ_POSITION,
        Request::SetStandardAddress(_) => SET_STANDARD_ADDRESS,
        Request::SetExtendedAddress(_) => SET_EXTENDED_ADDRESS,
        Request::SetBaudRate(_) => SET_BAUD_RATE,
        Request::SetReportingMode(_) => SET_REPORTING_MODE,
        Request::SetReportingPeriod(_) => SET_REPORTING_PERIOD,
        Request::SetZero => SET_ZERO,
        Request::SetDirection(_) => SET_DIRECTION,
        Request::ReadSpeed => READ_SPEED,
        Request::SetSpeedSampleTime(_) => SET_SPEED_SAMPLE_TIME,
        Request::SetMidpoint => SET_MIDPOINT,
        Request::SetPosition(_) => SET_POSITION,
        Request::SetFiveTurns => SET_FIVE_TURNS,
    }
}

/// The data bytes that follow the function code of a request.
pub open spec fn request_parameter(request: Request) -> Seq<u8> {
    match request {
        Request::ReadPosition => seq![0u8],
        Request::SetStandardAddress(value) => seq![value],
        Request::SetExtendedAddress(value) => le_u32_bytes(value),
        Request::SetBaudRate(value) => seq![baud_rate_code(value)],
        Request::SetReportingMode(value) => seq![reporting_mode_code(value)],
        Request::SetReportingPeriod(value) => le_u16_bytes(value),
        Request::SetZero => seq![0u8],
        Request::SetDirection(value) => seq![direction_code(value)],
        Request::ReadSpeed => seq![0u8],
        Request::SetSpeedSampleTime(value) => le_u16_bytes(value),
        Request::SetMidpoint => seq![1u8],
        Request::SetPosition(value) => le_u32_bytes(value),
        Request::SetFiveTurns => seq![1u8],
    }
}

/// The message of a request sent to `device_id`.
pub open spec fn request_message(device_id: u8, request: Request) -> Seq<u8> {
    message(device_id, request_function(request), request_parameter(request))
}

/// The error of a request whose value lies outside the protocol range.
pub open spec fn request_error(request: Request) -> Option<EncodeError> {
    match request {
        Request::SetStandardAddress(value) => if value == 0 {
            Some(EncodeError::InvalidStandardAddress(value))
        } else {
            None
        },
        Request::SetExtendedAddress(value) => if value > MAX_EXTENDED_ID {
            Some(EncodeError::InvalidExtendedCanId(value))
        } else {
            None
        },
        Request::SetReportingPeriod(value) => if value < 50 {
            Some(EncodeError::InvalidReportingPeriod(value))
        } else {
            None
        },
        _ => None,
    }
}

/// The function code of a response.
pub open spec fn response_function(response: Response) -> u8 {
    match response {
        Response::Position(_) => READ_POSITION,
        Response::Speed(_) => READ_SPEED,
        Response::Ack { command, .. } => ack_function(command),
        Response::SetExtendedAddress(_) => SET_EXTENDED_ADDRESS,
    }
}

/// The data bytes that follow the function code of a response.
pub open spec fn response_parameter(response: Response) -> Seq<u8> {
    match response {
        Response::Position(value) => le_u32_bytes(value),
        Response::Speed(value) => le_u32_bytes(value as u32),
        Response::Ack { status, .. } => seq![status.0],
        Response::SetExtendedAddress(status) => le_u32_bytes(status.0),
    }
}

/// The message of a response sent by `device_id`.
pub open spec fn response_message(device_id: u8, response: Response) -> Seq<u8> {
    message(device_id, response_function(response), response_parameter(response))
}

// ---------------------------------------------------------------------------
// Decoding.
// ---------------------------------------------------------------------------

/// The data of a frame addressed to `address`, after the checks that every
/// frame goes through: the identifier range, the frame shape (remote and FD
/// frames are rejected whatever their identifier), the identifier match
/// (`None` for other identifiers), the Classic length, the header, the
/// length byte and the device ID, in this order.
pub open spec fn matched_data_spec(address: Address, frame: FrameView, is_request: bool) -> Result<
    Option<Seq<u8>>,
    DecodeError,
> {
    if !id_in_range(frame.id) {
        match frame.id {
            FrameId::Standard(raw) => Err(DecodeError::InvalidStandardCanId(raw)),
            FrameId::Extended(raw) => Err(DecodeError::InvalidExtendedCanId(raw)),
        }
    } else {
        match frame.payload {
            PayloadView::Remote { .. } => Err(DecodeError::UnsupportedRemoteFrame),
            PayloadView::Fd(_) => Err(DecodeError::UnsupportedCanFd),
            PayloadView::Data(data) => if frame.id != address.id() {
                Ok(None)
            } else if data.len() > 8 {
                Err(DecodeError::DataLengthExceedsClassicCan(data.len() as usize))
            } else if data.len() < 3 {
                Err(DecodeError::IncompleteHeader { actual: data.len() as usize })
            } else if data[0] > 8 {
                Err(DecodeError::DeclaredLengthExceedsClassicCan(data[0]))
            } else if data[0] != data.len() && !(is_request && data[2] == SET_EXTENDED_ADDRESS
                && data[0] == 4 && data.len() == 7) {
                Err(DecodeError::LengthMismatch { declared: data[0], actual: data.len() as usize })
            } else if data[1] != address.device_id() {
                Err(DecodeError::DeviceIdMismatch { expected: address.device_id(), actual: data[1] })
            } else {
                Ok(Some(data))
            },
        }
    }
}

/// The defined message length of a request function; `None` for a function
/// that is not a request.
pub open spec fn request_length(function: u8) -> Option<u8> {
    if function == READ_POSITION || function == SET_STANDARD_ADDRESS || function == SET_BAUD_RATE
        || function == SET_REPORTING_MODE || function == SET_ZERO || function == SET_DIRECTION
        || function == READ_SPEED || function == SET_MIDPOINT || function == SET_FIVE_TURNS {
        Some(4u8)
    } else if function == SET_REPORTING_PERIOD || function == SET_SPEED_SAMPLE_TIME {
        Some(5u8)
    } else if function == SET_EXTENDED_ADDRESS || function == SET_POSITION {
        Some(7u8)
    } else {
        None
    }
}

/// The fixed parameter of a request function that has one.
pub open spec fn request_fixed_parameter(function: u8) -> Option<u8> {
    if function == READ_POSITION || function == SET_ZERO || function == READ_SPEED {
        Some(0u8)
    } else if function == SET_MIDPOINT || function == SET_FIVE_TURNS {
        Some(1u8)
    } else {
        None
    }
}

/// The request held by the matched data of a known request function whose
/// length and fixed parameter were checked; the parameter ranges are
/// checked here.
pub open spec fn request_fields(data: Seq<u8>) -> Result<Request, DecodeError> {
    let function = data[2];
    if function == READ_POSITION {
        Ok(Request::ReadPosition)
    } else if function == SET_STANDARD_ADDRESS {
        if data[3] == 0 {
            Err(DecodeError::InvalidStandardAddress(0))
        } else {
            Ok(Request::SetStandardAddress(data[3]))
        }
    } else if function == SET_EXTENDED_ADDRESS {
        if le_u32_at(data, 3) > MAX_EXTENDED_ID {
            Err(DecodeError::InvalidExtendedCanId(le_u32_at(data, 3)))
        } else {
            Ok(Request::SetExtendedAddress(le_u32_at(data, 3)))
        }
    } else if function == SET_BAUD_RATE {
        match baud_rate_of(data[3]) {
            Some(value) => Ok(Request::SetBaudRate(value)),
            None => Err(DecodeError::InvalidBaudRate(data[3])),
        }
    } else if function == SET_REPORTING_MODE {
        match reporting_mode_of(data[3]) {
            Some(value) => Ok(Request::SetReportingMode(value)),
            None => Err(DecodeError::InvalidReportingMode(data[3])),
        }
    } else if function == SET_REPORTING_PERIOD {
        if le_u16_at(data, 3) < 50 {
            Err(DecodeError::InvalidReportingPeriod(le_u16_at(data, 3)))
        } else {
            Ok(Request::SetReportingPeriod(le_u16_at(data, 3)))
        }
    } else if function == SET_ZERO {
        Ok(Request::SetZero)
    } else if function == SET_DIRECTION {
        match direction_of(data[3]) {
            Some(value) => Ok(Request::SetDirection(value)),
            None => Err(DecodeError::InvalidDirection(data[3])),
        }
    } else if function == READ_SPEED {
        Ok(Request::ReadSpeed)
    } else if function == SET_SPEED_SAMPLE_TIME {
        Ok(Request::SetSpeedSampleTime(le_u16_at(data, 3)))
    } else if function == SET_MIDPOINT {
        Ok(Request::SetMidpoint)
    } else if function == SET_POSITION {
        Ok(Request::SetPosition(le_u32_at(data, 3)))
    } else {
        Ok(Request::SetFiveTurns)
    }
}

/// The request held by matched data: `None` for an unknown function, else
/// the length check, the fixed parameter check and the field checks, in
/// this order.
pub open spec fn parse_request(data: Seq<u8>) -> Result<Option<Request>, DecodeError> {
    let function = data[2];
    match request_length(function) {
        None => Ok(None),
        Some(expected) => if data.len() != expected {
            Err(DecodeError::InvalidLength { function, expected, actual: data.len() as u8 })
        } else if request_fixed_parameter(function) matches Some(fixed) && data[3] != fixed {
            Err(
                DecodeError::InvalidFixedParameter {
                    function,
                    expected: request_fixed_parameter(function)->0,
                    actual: data[3],
                },
            )
        } else {
            match request_fields(data) {
                Ok(request) => Ok(Some(request)),
                Err(e) => Err(e),
            }
        },
    }
}

/// What decoding `frame` as a request to `address` gives.
pub open spec fn decode_request_spec(address: Address, frame: FrameView) -> Result<
    Option<Request>,
    DecodeError,
> {
    match matched_data_spec(address, frame, true) {
        Err(e) => Err(e),
        Ok(None) => Ok(None),
        Ok(Some(data)) => parse_request(data),
    }
}

/// The defined message length of a response function; `None` for a function
/// that is not a response.
pub open spec fn response_length(function: u8) -> Option<u8> {
    if function == READ_POSITION || function == READ_SPEED || function == SET_EXTENDED_ADDRESS {
        Some(7u8)
    } else if ack_command_of(function) is Some {
        Some(4u8)
    } else {
        None
    }
}

/// The response held by the matched data of a known response function
/// whose length was checked.
pub open spec fn response_fields(data: Seq<u8>) -> Response {
    let function = data[2];
    if function == READ_POSITION {
        Response::Position(le_u32_at(data, 3))
    } else if function == READ_SPEED {
        Response::Speed(le_u32_at(data, 3) as i32)
    } else if function == SET_EXTENDED_ADDRESS {
        Response::SetExtendedAddress(Status32(le_u32_at(data, 3)))
    } else {
        Response::Ack { command: ack_command_of(function)->0, status: Status(data[3]) }
    }
}

/// The response held by matched data: `None` for an unknown function, else
/// the length check.
pub open spec fn parse_response(data: Seq<u8>) -> Result<Option<Response>, DecodeError> {
    let function = data[2];
    match response_length(function) {
        None => Ok(None),
        Some(expected) => if data.len() != expected {
            Err(DecodeError::InvalidLength { function, expected, actual: data.len() as u8 })
        } else {
            Ok(Some(response_fields(data)))
        },
    }
}

/// What decoding `frame` as a response from `address` gives.
pub open spec fn decode_response_spec(address: Address, frame: FrameView) -> Result<
    Option<Response>,
    DecodeError,
> {
    match matched_data_spec(address, frame, false) {
        Err(e) => Err(e),
        Ok(None) => Ok(None),
        Ok(Some(data)) => parse_response(data),
    }
}

// ---------------------------------------------------------------------------
// Executable codec.
// ---------------------------------------------------------------------------

/// Encodes a host request as a Classic CAN data frame for `address`.
///
/// Returns the frame with the identifier of `address` and the message bytes
/// as its valid data, or the [`EncodeError`] of a parameter outside the
/// protocol range. Sending the frame is up to the caller.
pub fn encode_request(address: Address, request: Request) -> (result: Result<
    EncodedFrame,
    EncodeError,
>)
    ensures
        result is Ok <==> request_error(request) is None,
        result matches Ok(frame) ==> frame.id() == address.id() && frame.bytes()
            == request_message(address.device_id(), request),
        result matches Err(e) ==> request_error(request) == Some(e),
{
    let mut data = [0u8;8];
    let (function, length): (u8, u8) = match request {
        Request::ReadPosition => {
            data[3] = 0;
            (READ_POSITION, 4)
        },
        Request::SetStandardAddress(value) => {
            if value == 0 {
                return Err(EncodeError::InvalidStandardAddress(value));
            }
            data[3] = value;
            (SET_STANDARD_ADDRESS, 4)
        },
        Request::SetExtendedAddress(value) => {
            if value > MAX_EXTENDED_ID {
                return Err(EncodeError::InvalidExtendedCanId(value));
            }
            put_u32(&mut data, 3, value);
            (SET_EXTENDED_ADDRESS, 7)
        },
        Request::SetBaudRate(value) => {
            data[3] = baud_rate_byte(value);
            (SET_BAUD_RATE, 4)
        },
        Request::SetReportingMode(value) => {
            data[3] = reporting_mode_byte(value);
            (SET_REPORTING_MODE, 4)
        },
        Request::SetReportingPeriod(value) => {
            if value < 50 {
                return Err(EncodeError::InvalidReportingPeriod(value));
            }
            put_u16(&mut data, 3, value);
            (SET_REPORTING_PERIOD, 5)
        },
        Request::SetZero => {
            data[3] = 0;
            (SET_ZERO, 4)
        },
        Request::SetDirection(value) => {
            data[3] = direction_byte(value);
            (SET_DIRECTION, 4)
        },
        Request::ReadSpeed => {
            data[3] = 0;
            (READ_SPEED, 4)
        },
        Request::SetSpeedSampleTime(value) => {
            put_u16(&mut data, 3, value);
            (SET_SPEED_SAMPLE_TIME, 5)
        },
        Request::SetMidpoint => {
            data[3] = 1;
            (SET_MIDPOINT, 4)
        },
        Request::SetPosition(value) => {
            put_u32(&mut data, 3, value);
            (SET_POSITION, 7)
        },
        Request::SetFiveTurns => {
            data[3] = 1;
            (SET_FIVE_TURNS, 4)
        },
    };
    assert(length == request_parameter(request).len() + 3);
    assert(function == request_function(request));
    assert(data@.subrange(3, length as int) =~= request_parameter(request));
    let ghost parameter = data@.subrange(3, length as int);
    data[0] = length;
    data[1] = address.device_id();
    data[2] = function;
    assert(data@.subrange(3, length as int) =~= parameter);
    assert(data@.subrange(0, length as int) =~= request_message(address.device_id(), request));
    Ok(EncodedFrame::new(address.id(), data, length))
}

/// Encodes a device response as a Classic CAN data frame for `address`.
///
/// Status values keep all their bits; the byte order of each field is that
/// of the protocol. Every response can be encoded.
pub fn encode_response(address: Address, response: Response) -> (result: Result<
    EncodedFrame,
    EncodeError,
>)
    ensures
        result matches Ok(frame) && frame.id() == address.id() && frame.bytes()
            == response_message(address.device_id(), response),
{
    let mut data = [0u8;8];
    let (function, length): (u8, u8) = match response {
        Response::Position(value) => {
            put_u32(&mut data, 3, value);
            (READ_POSITION, 7)
        },
        Response::Speed(value) => {
            put_u32(&mut data, 3, value as u32);
            (READ_SPEED, 7)
        },
        Response::Ack { command, status } => {
            data[3] = status.0;
            (ack_command_byte(command), 4)
        },
        Response::SetExtendedAddress(status) => {
            put_u32(&mut data, 3, status.0);
            (SET_EXTENDED_ADDRESS, 7)
        },
    };
    assert(length == response_parameter(response).len() + 3);
    assert(function == response_function(response));
    assert(data@.subrange(3, length as int) =~= response_parameter(response));
    let ghost parameter = data@.subrange(3, length as int);
    data[0] = length;
    data[1] = address.device_id();
    data[2] = function;
    assert(data@.subrange(3, length as int) =~= parameter);
    assert(data@.subrange(0, length as int) =~= response_message(address.device_id(), response));
    Ok(EncodedFrame::new(address.id(), data, length))
}

fn baud_rate_byte(value: BaudRate) -> (code: u8)
    ensures
        code == baud_rate_code(value),
{
    match value {
        BaudRate::Kbps500 => 0,
        BaudRate::Mbps1 => 1,
        BaudRate::Kbps250 => 2,
        BaudRate::Kbps125 => 3,
        BaudRate::Kbps100 => 4,
    }
}

fn parse_baud_rate(value: u8) -> (result: Result<BaudRate, DecodeError>)
    ensures
        result == (match baud_rate_of(value) {
            Some(rate) => Ok(rate),
            None => Err(DecodeError::InvalidBaudRate(value)),
        }),
{
    match value {
        0 => Ok(BaudRate::Kbps500),
        1 => Ok(BaudRate::Mbps1),
        2 => Ok(BaudRate::Kbps250),
        3 => Ok(BaudRate::Kbps125),
        4 => Ok(BaudRate::Kbps100),
        _ => Err(DecodeError::InvalidBaudRate(value)),
    }
}

fn reporting_mode_byte(value: ReportingMode) -> (code: u8)
    ensures
        code == reporting_mode_code(value),
{
    match value {
        ReportingMode::Query => 0,
        ReportingMode::StandardPosition => 0xaa,
        ReportingMode::StandardSignedSpeed => 2,
        ReportingMode::StandardUnsignedSpeed => 7,
        ReportingMode::ExtendedPosition => 0x18,
        ReportingMode::ExtendedSignedSpeed => 0x12,
        ReportingMode::ExtendedUnsignedSpeed => 0x17,
    }
}

fn parse_reporting_mode(value: u8) -> (result: Result<ReportingMode, DecodeError>)
    ensures
        result == (match reporting_mode_of(value) {
            Some(mode) => Ok(mode),
            None => Err(DecodeError::InvalidReportingMode(value)),
        }),
{
    match value {
        0 => Ok(ReportingMode::Query),
        0xaa => Ok(ReportingMode::StandardPosition),
        2 => Ok(ReportingMode::StandardSignedSpeed),
        7 => Ok(ReportingMode::StandardUnsignedSpeed),
        0x18 => Ok(ReportingMode::ExtendedPosition),
        0x12 => Ok(ReportingMode::ExtendedSignedSpeed),
        0x17 => Ok(ReportingMode::ExtendedUnsignedSpeed),
        _ => Err(DecodeError::InvalidReportingMode(value)),
    }
}

fn direction_byte(value: Direction) -> (code: u8)
    ensures
        code == direction_code(value),
{
    match value {
        Direction::Clockwise => 0,
        Direction::Counterclockwise => 1,
    }
}

fn parse_direction(value: u8) -> (result: Result<Direction, DecodeError>)
    ensures
        result == (match direction_of(value) {
            Some(direction) => Ok(direction),
            None => Err(DecodeError::InvalidDirection(value)),
        }),
{
    match value {
        0 => Ok(Direction::Clockwise),
        1 => Ok(Direction::Counterclockwise),
        _ => Err(DecodeError::InvalidDirection(value)),
    }
}

fn ack_command_byte(value: AckCommand) -> (function: u8)
    ensures
        function == ack_function(value),
{
    match value {
        AckCommand::SetStandardAddress => SET_STANDARD_ADDRESS,
        AckCommand::SetBaudRate => SET_BAUD_RATE,
        AckCommand::SetReportingMode => SET_REPORTING_MODE,
        AckCommand::SetReportingPeriod => SET_REPORTING_PERIOD,
        AckCommand::SetZero => SET_ZERO,
        AckCommand::SetDirection => SET_DIRECTION,
        AckCommand::SetSpeedSampleTime => SET_SPEED_SAMPLE_TIME,
        AckCommand::SetMidpoint => SET_MIDPOINT,
        AckCommand::SetPosition => SET_POSITION,
        AckCommand::SetFiveTurns => SET_FIVE_TURNS,
    }
}

fn parse_ack_command(value: u8) -> (command: Option<AckCommand>)
    ensures
        command == ack_command_of(value),
{
    match value {
        SET_STANDARD_ADDRESS => Some(AckCommand::SetStandardAddress),
        SET_BAUD_RATE => Some(AckCommand::SetBaudRate),
        SET_REPORTING_MODE => Some(AckCommand::SetReportingMode),
        SET_REPORTING_PERIOD => Some(AckCommand::SetReportingPeriod),
        SET_ZERO => Some(AckCommand::SetZero),
        SET_DIRECTION => Some(AckCommand::SetDirection),
        SET_SPEED_SAMPLE_TIME => Some(AckCommand::SetSpeedSampleTime),
        SET_MIDPOINT => Some(AckCommand::SetMidpoint),
        SET_POSITION => Some(AckCommand::SetPosition),
        SET_FIVE_TURNS => Some(AckCommand::SetFiveTurns),
        _ => None,
    }
}

/// Decodes a borrowed frame in the request direction.
///
/// The identifier range is checked first, and every remote or CAN FD frame
/// is rejected, also one for another device. A valid Classic data frame
/// with another identifier gives `Ok(None)`. A frame with the identifier of
/// `address` has its Classic length, header, `LEN` and device ID checked
/// before an unknown function gives `Ok(None)`. Known functions never accept
/// padding to eight bytes; only the extended-address request accepts
/// `LEN=4` with DLC 7, which decodes as `LEN=7` does.
pub fn decode_request(address: Address, frame: FrameRef<'_>) -> (result: Result<
    Option<Request>,
    DecodeError,
>)
    ensures
        result == decode_request_spec(address, frame@),
{
    let data = match matched_data(address, frame, true) {
        Err(e) => return Err(e),
        Ok(None) => return Ok(None),
        Ok(Some(data)) => data,
    };
    let function = data[2];
    let request = match function {
        READ_POSITION => {
            exact_length(data, function, 4)?;
            fixed_parameter(data, function, 0)?;
            Request::ReadPosition
        },
        SET_STANDARD_ADDRESS => {
            exact_length(data, function, 4)?;
            if data[3] == 0 {
                return Err(DecodeError::InvalidStandardAddress(0));
            }
            Request::SetStandardAddress(data[3])
        },
        SET_EXTENDED_ADDRESS => {
            exact_length(data, function, 7)?;
            let value = read_u32(data, 3);
            if value > MAX_EXTENDED_ID {
                return Err(DecodeError::InvalidExtendedCanId(value));
            }
            Request::SetExtendedAddress(value)
        },
        SET_BAUD_RATE => {
            exact_length(data, function, 4)?;
            Request::SetBaudRate(parse_baud_rate(data[3])?)
        },
        SET_REPORTING_MODE => {
            exact_length(data, function, 4)?;
            Request::SetReportingMode(parse_reporting_mode(data[3])?)
        },
        SET_REPORTING_PERIOD => {
            exact_length(data, function, 5)?;
            let value = read_u16(data, 3);
            if value < 50 {
                return Err(DecodeError::InvalidReportingPeriod(value));
            }
            Request::SetReportingPeriod(value)
        },
        SET_ZERO => {
            exact_length(data, function, 4)?;
            fixed_parameter(data, function, 0)?;
            Request::SetZero
        },
        SET_DIRECTION => {
            exact_length(data, function, 4)?;
            Request::SetDirection(parse_direction(data[3])?)
        },
        READ_SPEED => {
            exact_length(data, function, 4)?;
            fixed_parameter(data, function, 0)?;
            Request::ReadSpeed
        },
        SET_SPEED_SAMPLE_TIME => {
            exact_length(data, function, 5)?;
            Request::SetSpeedSampleTime(read_u16(data, 3))
        },
        SET_MIDPOINT => {
            exact_length(data, function, 4)?;
            fixed_parameter(data, function, 1)?;
            Request::SetMidpoint
        },
        SET_POSITION => {
            exact_length(data, function, 7)?;
            Request::SetPosition(read_u32(data, 3))
        },
        SET_FIVE_TURNS => {
            exact_length(data, function, 4)?;
            fixed_parameter(data, function, 1)?;
            Request::SetFiveTurns
        },
        _ => return Ok(None),
    };
    Ok(Some(request))
}

/// Decodes a borrowed frame in the response direction.
///
/// Position, speed and status keep all their wire bits. Position and signed
/// speed are read with the layouts of `0x01` and `0x0a`; a query answer and
/// an automatic report are not told apart. The identifier, shape, header,
/// `LEN`, DLC and device ID are checked in the order of [`decode_request`];
/// the extended-address response must have `LEN=7` and DLC 7.
pub fn decode_response(address: Address, frame: FrameRef<'_>) -> (result: Result<
    Option<Response>,
    DecodeError,
>)
    ensures
        result == decode_response_spec(address, frame@),
{
    let data = match matched_data(address, frame, false) {
        Err(e) => return Err(e),
        Ok(None) => return Ok(None),
        Ok(Some(data)) => data,
    };
    let function = data[2];
    let response = match function {
        READ_POSITION => {
            exact_length(data, function, 7)?;
            Response::Position(read_u32(data, 3))
        },
        READ_SPEED => {
            exact_length(data, function, 7)?;
            Response::Speed(read_u32(data, 3) as i32)
        },
        SET_EXTENDED_ADDRESS => {
            exact_length(data, function, 7)?;
            Response::SetExtendedAddress(Status32(read_u32(data, 3)))
        },
        _ => {
            let command = match parse_ack_command(function) {
                Some(command) => command,
                None => return Ok(None),
            };
            exact_length(data, function, 4)?;
            Response::Ack { command, status: Status(data[3]) }
        },
    };
    Ok(Some(response))
}

/// The model of the result of [`matched_data`].
pub open spec fn matched_view(result: Result<Option<&[u8]>, DecodeError>) -> Result<
    Option<Seq<u8>>,
    DecodeError,
> {
    match result {
        Ok(Some(data)) => Ok(Some(data@)),
        Ok(None) => Ok(None),
        Err(e) => Err(e),
    }
}

fn matched_data<'a>(address: Address, frame: FrameRef<'a>, is_request: bool) -> (result: Result<
    Option<&'a [u8]>,
    DecodeError,
>)
    ensures
        matched_data_spec(address, frame@, is_request) == matched_view(result),
{
    match frame.id {
        FrameId::Standard(id) => {
            if id > MAX_STANDARD_ID {
                return Err(DecodeError::InvalidStandardCanId(id));
            }
        },
        FrameId::Extended(id) => {
            if id > MAX_EXTENDED_ID {
                return Err(DecodeError::InvalidExtendedCanId(id));
            }
        },
    }
    let data = match frame.payload {
        FramePayload::Remote { .. } => return Err(DecodeError::UnsupportedRemoteFrame),
        FramePayload::Fd(_) => return Err(DecodeError::UnsupportedCanFd),
        FramePayload::Data(data) => data,
    };
    if frame.id != address.id() {
        return Ok(None);
    }
    if data.len() > 8 {
        return Err(DecodeError::DataLengthExceedsClassicCan(data.len()));
    }
    if data.len() < 3 {
        return Err(DecodeError::IncompleteHeader { actual: data.len() });
    }
    let declared = data[0];
    if declared > 8 {
        return Err(DecodeError::DeclaredLengthExceedsClassicCan(declared));
    }
    // The extended-address request may declare LEN 4 or 7; its DLC is always 7.
    let extended_request_length = is_request && data[2] == SET_EXTENDED_ADDRESS && declared == 4
        && data.len() == 7;
    if declared as usize != data.len() && !extended_request_length {
        return Err(DecodeError::LengthMismatch { declared, actual: data.len() });
    }
    if data[1] != address.device_id() {
        return Err(DecodeError::DeviceIdMismatch { expected: address.device_id(), actual: data[1] });
    }
    Ok(Some(data))
}

fn exact_length(data: &[u8], function: u8, expected: u8) -> (result: Result<(), DecodeError>)
    ensures
        result is Ok <==> data@.len() as u8 == expected,
        result matches Err(e) ==> e == (DecodeError::InvalidLength {
            function,
            expected,
            actual: data@.len() as u8,
        }),
{
    let actual = data.len() as u8;
    if actual == expected {
        Ok(())
    } else {
        Err(DecodeError::InvalidLength { function, expected, actual })
    }
}

fn fixed_parameter(data: &[u8], function: u8, expected: u8) -> (result: Result<(), DecodeError>)
    requires
        data@.len() >= 4,
    ensures
        result is Ok <==> data@[3] == expected,
        result matches Err(e) ==> e == (DecodeError::InvalidFixedParameter {
            function,
            expected,
            actual: data@[3],
        }),
{
    if data[3] == expected {
        Ok(())
    } else {
        Err(DecodeError::InvalidFixedParameter { function, expected, actual: data[3] })
    }
}

} // verus!
