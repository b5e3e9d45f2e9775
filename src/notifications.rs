//! The messages of the protocol and their exact byte layout.
//!
//! Every frame is `[length][hub id][type][payload...]`; `frame` in `wire` gives the
//! header, and `payload_bytes` below gives the payload of each message.

use vstd::prelude::*;
use crate::error::Error;
use crate::codes::{
    AlertOperation, AlertPayload, AlertType, CompletionInfo, DatasetType, EndState, ErrorCode,
    HubAction, HubPropertyOperation, HubPropertyRef, InformationType, ModeInformationType,
    StartupInfo,
};
use crate::wire::{
    build_frame, copy_range, declared_len, frame, frame_payload, frame_type, from_bits_i32,
    from_byte_i8, header_ok, i32_bits, i8_byte, le16, le16_seq, le32, lemma_frame_header,
    lemma_header_frame, lemma_le16_injective, lemma_le16_seq_injective, lemma_le16_seq_len,
    lemma_le32_injective,
    lemma_le16_seq_push, push_all, push_le16, push_le32, read_header, read_le16, read_le32,
    to_bits_i32, to_byte_i8, MAX_PAYLOAD_LEN,
};

verus! {

/// A hub property report, or a request about a property.
#[derive(Debug, Clone, PartialEq, Eq)]
pub struct HubProperty {
    pub reference: HubPropertyRef,
    pub operation: HubPropertyOperation,
    /// The property's value as the hub lays it out; empty in most requests.
    pub payload: Vec<u8>,
}

#[derive(Debug, Clone, Copy, PartialEq, Eq, Structural)]
pub struct HubActionRequest {
    pub action_type: HubAction,
}

/// An alert request or report; only an `Update` carries a payload.
#[derive(Debug, Clone, Copy, PartialEq, Eq, Structural)]
pub struct HubAlert {
    pub alert_type: AlertType,
    pub operation: AlertOperation,
    pub payload: AlertPayload,
}

/// What happened on a port.
#[derive(Debug, Clone, Copy, PartialEq, Eq, Structural)]
pub enum IoAttachEvent {
    DetachedIo,
    AttachedIo { io_type_id: u16, hw_rev: u32, fw_rev: u32 },
    /// Two physical ports were combined into the virtual port that the message names.
    AttachedVirtualIo { io_type_id: u16, port_a: u8, port_b: u8 },
}

#[derive(Debug, Clone, Copy, PartialEq, Eq, Structural)]
pub struct AttachedIo {
    pub port: u8,
    pub event: IoAttachEvent,
}

#[derive(Debug, Clone, Copy, PartialEq, Eq, Structural)]
pub struct ErrorMessageFormat {
    /// The type byte of the message that caused the error.
    pub command_type: u8,
    pub error_code: ErrorCode,
}

/// A hardware network command, carried as the bytes the hub sent.
#[derive(Debug, Clone, PartialEq, Eq)]
pub struct NetworkCommand {
    pub payload: Vec<u8>,
}

#[derive(Debug, Clone, Copy, PartialEq, Eq, Structural)]
pub struct InformationRequest {
    pub port_id: u8,
    pub information_type: InformationType,
}

#[derive(Debug, Clone, Copy, PartialEq, Eq, Structural)]
pub struct ModeInformationRequest {
    pub port_id: u8,
    pub mode: u8,
    pub information_type: ModeInformationType,
}

/// Sets up the input format of a port (sent) or reports it (received).
#[derive(Debug, Clone, Copy, PartialEq, Eq, Structural)]
pub struct InputSetupSingle {
    pub port_id: u8,
    pub mode: u8,
    /// The change in value that triggers a new notification.
    pub delta: u32,
    pub notification_enabled: bool,
}

/// The two kinds of port-information reply.
#[derive(Debug, Clone, PartialEq, Eq)]
pub enum PortInformationType {
    ModeInfo { capabilities: u8, mode_count: u8, input_modes: u16, output_modes: u16 },
    /// The valid mode combinations, one bitmask of modes each.
    PossibleModeCombinations(Vec<u16>),
}

#[derive(Debug, Clone, PartialEq, Eq)]
pub struct PortInformationValue {
    pub port_id: u8,
    pub information_type: PortInformationType,
}

#[derive(Debug, Clone, Copy, PartialEq, Eq, Structural)]
pub struct ValueFormatType {
    pub number_of_datasets: u8,
    pub dataset_type: DatasetType,
    pub total_figures: u8,
    pub decimals: u8,
}

/// The eight kinds of per-mode reply. Range bounds are IEEE-754 single-precision
/// values, held as their bit patterns.
#[derive(Debug, Clone, PartialEq, Eq)]
pub enum PortModeInformationType {
    Name(Vec<u8>),
    RawRange { min: u32, max: u32 },
    PctRange { min: u32, max: u32 },
    SiRange { min: u32, max: u32 },
    Symbol(Vec<u8>),
    Mapping { input: u8, output: u8 },
    MotorBias(u8),
    ValueFormat(ValueFormatType),
}

#[derive(Debug, Clone, PartialEq, Eq)]
pub struct PortModeInformationValue {
    pub port_id: u8,
    pub mode: u8,
    pub information_type: PortModeInformationType,
}

/// A value sample from one port, as raw bytes.
#[derive(Debug, Clone, PartialEq, Eq)]
pub struct PortValueSingleFormat {
    pub port_id: u8,
    pub data: Vec<u8>,
}

/// A value sample from a port in combined mode, as raw bytes.
#[derive(Debug, Clone, PartialEq, Eq)]
pub struct PortValueCombinedFormat {
    pub port_id: u8,
    /// Which modes the data holds, one bit each.
    pub mode_pointers: u16,
    pub data: Vec<u8>,
}

#[derive(Debug, Clone, PartialEq, Eq)]
pub enum PortOutputSubcommand {
    StartSpeed { speed: i8, max_power: u8, use_acc_profile: bool, use_dec_profile: bool },
    GotoAbsolutePosition {
        abs_pos: i32,
        speed: i8,
        max_power: u8,
        end_state: EndState,
        use_acc_profile: bool,
        use_dec_profile: bool,
    },
    /// Writes data to a mode of the device; what it means depends on the device.
    WriteDirectModeData { mode: u8, payload: Vec<u8> },
}

#[derive(Debug, Clone, PartialEq, Eq)]
pub struct PortOutputCommandFormat {
    pub port_id: u8,
    pub startup_info: StartupInfo,
    pub completion_info: CompletionInfo,
    pub subcommand: PortOutputSubcommand,
}

#[derive(Debug, Clone, Copy, PartialEq, Eq, Structural)]
pub struct PortOutputCommandFeedbackFormat {
    pub port_id: u8,
    pub feedback: u8,
}

/// One message of the protocol.
#[derive(Debug, Clone, PartialEq, Eq)]
pub enum NotificationMessage {
    HubProperties(HubProperty),
    HubActions(HubActionRequest),
    HubAlerts(HubAlert),
    HubAttachedIo(AttachedIo),
    GenericErrorMessages(ErrorMessageFormat),
    HwNetworkCommands(NetworkCommand),
    PortInformationRequest(InformationRequest),
    PortModeInformationRequest(ModeInformationRequest),
    PortInputFormatSetupSingle(InputSetupSingle),
    PortInformation(PortInformationValue),
    PortModeInformation(PortModeInformationValue),
    PortValueSingle(PortValueSingleFormat),
    PortValueCombined(PortValueCombinedFormat),
    PortInputFormatSingle(InputSetupSingle),
    PortOutputCommand(PortOutputCommandFormat),
    PortOutputCommandFeedback(PortOutputCommandFeedbackFormat),
}

pub open spec fn bool_byte(b: bool) -> u8 {
    if b { 1 } else { 0 }
}

/// The profile byte of a motor command: bit 0 for acceleration, bit 1 for deceleration.
pub open spec fn profile_byte(acc: bool, dec: bool) -> u8 {
    (bool_byte(acc) + 2 * bool_byte(dec)) as u8
}

/// The byte that holds the startup and completion information of an output command.
pub open spec fn startup_completion_byte(s: StartupInfo, c: CompletionInfo) -> u8 {
    (s.spec_code() * 16 + c.spec_code()) as u8
}

pub open spec fn attach_event_bytes(e: IoAttachEvent) -> Seq<u8> {
    match e {
        IoAttachEvent::DetachedIo => seq![0u8],
        IoAttachEvent::AttachedIo { io_type_id, hw_rev, fw_rev } =>
            seq![1u8] + le16(io_type_id) + le32(hw_rev) + le32(fw_rev),
        IoAttachEvent::AttachedVirtualIo { io_type_id, port_a, port_b } =>
            seq![2u8] + le16(io_type_id) + seq![port_a, port_b],
    }
}

pub open spec fn port_information_bytes(t: PortInformationType) -> Seq<u8> {
    match t {
        PortInformationType::ModeInfo { capabilities, mode_count, input_modes, output_modes } =>
            seq![1u8, capabilities, mode_count] + le16(input_modes) + le16(output_modes),
        PortInformationType::PossibleModeCombinations(v) => seq![2u8] + le16_seq(v@),
    }
}

pub open spec fn mode_information_bytes(t: PortModeInformationType) -> Seq<u8> {
    match t {
        PortModeInformationType::Name(v) => seq![0x00u8] + v@,
        PortModeInformationType::RawRange { min, max } => seq![0x01u8] + le32(min) + le32(max),
        PortModeInformationType::PctRange { min, max } => seq![0x02u8] + le32(min) + le32(max),
        PortModeInformationType::SiRange { min, max } => seq![0x03u8] + le32(min) + le32(max),
        PortModeInformationType::Symbol(v) => seq![0x04u8] + v@,
        PortModeInformationType::Mapping { input, output } => seq![0x05u8, input, output],
        PortModeInformationType::MotorBias(b) => seq![0x07u8, b],
        PortModeInformationType::ValueFormat(f) => seq![
            0x80u8,
            f.number_of_datasets,
            f.dataset_type.spec_code(),
            f.total_figures,
            f.decimals,
        ],
    }
}

pub open spec fn subcommand_bytes(c: PortOutputSubcommand) -> Seq<u8> {
    match c {
        PortOutputSubcommand::StartSpeed { speed, max_power, use_acc_profile, use_dec_profile } =>
            seq![0x07u8, i8_byte(speed), max_power, profile_byte(use_acc_profile, use_dec_profile)],
        PortOutputSubcommand::GotoAbsolutePosition {
            abs_pos,
            speed,
            max_power,
            end_state,
            use_acc_profile,
            use_dec_profile,
        } => seq![0x0Du8] + le32(i32_bits(abs_pos)) + seq![
            i8_byte(speed),
            max_power,
            end_state.spec_code(),
            profile_byte(use_acc_profile, use_dec_profile),
        ],
        PortOutputSubcommand::WriteDirectModeData { mode, payload } => seq![0x51u8, mode]
            + payload@,
    }
}

pub open spec fn input_setup_bytes(s: InputSetupSingle) -> Seq<u8> {
    seq![s.port_id, s.mode] + le32(s.delta) + seq![bool_byte(s.notification_enabled)]
}

impl NotificationMessage {
    /// The message type byte of the frame.
    pub open spec fn type_code(&self) -> u8 {
        match self {
            NotificationMessage::HubProperties(_) => 0x01,
            NotificationMessage::HubActions(_) => 0x02,
            NotificationMessage::HubAlerts(_) => 0x03,
            NotificationMessage::HubAttachedIo(_) => 0x04,
            NotificationMessage::GenericErrorMessages(_) => 0x05,
            NotificationMessage::HwNetworkCommands(_) => 0x08,
            NotificationMessage::PortInformationRequest(_) => 0x21,
            NotificationMessage::PortModeInformationRequest(_) => 0x22,
            NotificationMessage::PortInputFormatSetupSingle(_) => 0x41,
            NotificationMessage::PortInformation(_) => 0x43,
            NotificationMessage::PortModeInformation(_) => 0x44,
            NotificationMessage::PortValueSingle(_) => 0x45,
            NotificationMessage::PortValueCombined(_) => 0x46,
            NotificationMessage::PortInputFormatSingle(_) => 0x47,
            NotificationMessage::PortOutputCommand(_) => 0x81,
            NotificationMessage::PortOutputCommandFeedback(_) => 0x82,
        }
    }

    /// The payload of the frame, after the type byte.
    pub open spec fn payload_bytes(&self) -> Seq<u8> {
        match self {
            NotificationMessage::HubProperties(p) => seq![
                p.reference.spec_code(),
                p.operation.spec_code(),
            ] + p.payload@,
            NotificationMessage::HubActions(a) => seq![a.action_type.spec_code()],
            NotificationMessage::HubAlerts(a) => if a.operation == AlertOperation::Update {
                seq![a.alert_type.spec_code(), a.operation.spec_code(), a.payload.spec_code()]
            } else {
                seq![a.alert_type.spec_code(), a.operation.spec_code()]
            },
            NotificationMessage::HubAttachedIo(a) => seq![a.port] + attach_event_bytes(a.event),
            NotificationMessage::GenericErrorMessages(e) => seq![
                e.command_type,
                e.error_code.spec_code(),
            ],
            NotificationMessage::HwNetworkCommands(c) => c.payload@,
            NotificationMessage::PortInformationRequest(r) => seq![
                r.port_id,
                r.information_type.spec_code(),
            ],
            NotificationMessage::PortModeInformationRequest(r) => seq![
                r.port_id,
                r.mode,
                r.information_type.spec_code(),
            ],
            NotificationMessage::PortInputFormatSetupSingle(s) => input_setup_bytes(*s),
            NotificationMessage::PortInformation(v) => seq![v.port_id] + port_information_bytes(
                v.information_type,
            ),
            NotificationMessage::PortModeInformation(v) => seq![v.port_id, v.mode]
                + mode_information_bytes(v.information_type),
            NotificationMessage::PortValueSingle(v) => seq![v.port_id] + v.data@,
            NotificationMessage::PortValueCombined(v) => seq![v.port_id] + le16(v.mode_pointers)
                + v.data@,
            NotificationMessage::PortInputFormatSingle(s) => input_setup_bytes(*s),
            NotificationMessage::PortOutputCommand(c) => seq![
                c.port_id,
                startup_completion_byte(c.startup_info, c.completion_info),
            ] + subcommand_bytes(c.subcommand),
            NotificationMessage::PortOutputCommandFeedback(f) => seq![f.port_id, f.feedback],
        }
    }

    /// The message can be sent: its payload fits in a frame, and an alert that is not an
    /// update carries no alert state.
    pub open spec fn wf(&self) -> bool {
        &&& self.payload_bytes().len() <= MAX_PAYLOAD_LEN
        &&& self matches NotificationMessage::HubAlerts(a) ==> (a.operation
            != AlertOperation::Update ==> a.payload == AlertPayload::StatusOk)
    }

    /// The frame that stands for this message.
    pub open spec fn spec_encode(&self) -> Seq<u8> {
        frame(self.type_code(), self.payload_bytes())
    }
}

/// The bytes after the port and mode of a per-mode reply are those of one of its eight kinds.
pub open spec fn mode_information_ok(q: Seq<u8>) -> bool {
    &&& q.len() >= 1
    &&& if q[0] == 0x00 || q[0] == 0x04 {
        true
    } else if 0x01 <= q[0] <= 0x03 {
        q.len() == 9
    } else if q[0] == 0x05 {
        q.len() == 3
    } else if q[0] == 0x07 {
        q.len() == 2
    } else if q[0] == 0x80 {
        q.len() == 5 && DatasetType::is_code(q[2])
    } else {
        false
    }
}

/// The bytes after the port and startup byte of an output command are those of a subcommand.
pub open spec fn subcommand_ok(q: Seq<u8>) -> bool {
    &&& q.len() >= 1
    &&& if q[0] == 0x07 {
        q.len() == 4 && q[3] < 4
    } else if q[0] == 0x0D {
        q.len() == 9 && EndState::is_code(q[7]) && q[8] < 4
    } else if q[0] == 0x51 {
        q.len() >= 2
    } else {
        false
    }
}

pub open spec fn startup_completion_ok(b: u8) -> bool {
    b == 0x00 || b == 0x01 || b == 0x10 || b == 0x11
}

/// `p` is the payload of some message of type `ty`.
pub open spec fn payload_ok(ty: u8, p: Seq<u8>) -> bool {
    if ty == 0x01 {
        p.len() >= 2 && HubPropertyRef::is_code(p[0]) && HubPropertyOperation::is_code(p[1])
    } else if ty == 0x02 {
        p.len() == 1 && HubAction::is_code(p[0])
    } else if ty == 0x03 {
        &&& p.len() >= 2
        &&& AlertType::is_code(p[0])
        &&& AlertOperation::is_code(p[1])
        &&& if p[1] == 0x04 {
            p.len() == 3 && AlertPayload::is_code(p[2])
        } else {
            p.len() == 2
        }
    } else if ty == 0x04 {
        p.len() >= 2 && ((p[1] == 0 && p.len() == 2) || (p[1] == 1 && p.len() == 12) || (p[1] == 2
            && p.len() == 6))
    } else if ty == 0x05 {
        p.len() == 2 && ErrorCode::is_code(p[1])
    } else if ty == 0x08 {
        true
    } else if ty == 0x21 {
        p.len() == 2 && InformationType::is_code(p[1])
    } else if ty == 0x22 {
        p.len() == 3 && ModeInformationType::is_code(p[2])
    } else if ty == 0x41 || ty == 0x47 {
        p.len() == 7 && p[6] <= 1
    } else if ty == 0x43 {
        p.len() >= 2 && ((p[1] == 1 && p.len() == 8) || (p[1] == 2 && p.len() % 2 == 0))
    } else if ty == 0x44 {
        p.len() >= 2 && mode_information_ok(p.subrange(2, p.len() as int))
    } else if ty == 0x45 {
        p.len() >= 1
    } else if ty == 0x46 {
        p.len() >= 3
    } else if ty == 0x81 {
        p.len() >= 2 && startup_completion_ok(p[1]) && subcommand_ok(p.subrange(2, p.len() as int))
    } else if ty == 0x82 {
        p.len() == 2
    } else {
        false
    }
}

/// `b` holds a whole frame that some message encodes to (and maybe bytes after it).
pub open spec fn frame_ok(b: Seq<u8>) -> bool {
    header_ok(b) && payload_ok(frame_type(b), frame_payload(b))
}

fn byte_to_bool(b: u8) -> (r: bool)
    requires
        b <= 1,
    ensures
        bool_byte(r) == b,
{
    b == 1
}

fn byte_to_profile(b: u8) -> (r: (bool, bool))
    requires
        b < 4,
    ensures
        profile_byte(r.0, r.1) == b,
{
    (b % 2 == 1, b / 2 == 1)
}

fn decode_input_setup(b: &[u8], s: usize, e: usize) -> (r: Option<InputSetupSingle>)
    requires
        s <= e <= b@.len(),
    ensures
        r is Some <==> (e - s == 7 && b@[s + 6] <= 1),
        r matches Some(x) ==> input_setup_bytes(x) == b@.subrange(s as int, e as int),
{
    if e - s != 7 || b[s + 6] > 1 {
        return None;
    }
    let x = InputSetupSingle {
        port_id: b[s],
        mode: b[s + 1],
        delta: read_le32(b, s + 2),
        notification_enabled: byte_to_bool(b[s + 6]),
    };
    assert(input_setup_bytes(x) =~= b@.subrange(s as int, e as int));
    Some(x)
}

fn decode_attach_event(b: &[u8], s: usize, e: usize) -> (r: Option<IoAttachEvent>)
    requires
        s < e <= b@.len(),
    ensures
        r is Some <==> ((b@[s as int] == 0 && e - s == 1) || (b@[s as int] == 1 && e - s == 11) || (
        b@[s as int] == 2 && e - s == 5)),
        r matches Some(x) ==> attach_event_bytes(x) == b@.subrange(s as int, e as int),
{
    let k = b[s];
    if k == 0 && e - s == 1 {
        let x = IoAttachEvent::DetachedIo;
        assert(attach_event_bytes(x) =~= b@.subrange(s as int, e as int));
        Some(x)
    } else if k == 1 && e - s == 11 {
        let io_type_id = read_le16(b, s + 1);
        let hw_rev = read_le32(b, s + 3);
        let fw_rev = read_le32(b, s + 7);
        let x = IoAttachEvent::AttachedIo { io_type_id, hw_rev, fw_rev };
        assert(attach_event_bytes(x) =~= b@.subrange(s as int, e as int));
        Some(x)
    } else if k == 2 && e - s == 5 {
        let io_type_id = read_le16(b, s + 1);
        let port_a = b[s + 3];
        let port_b = b[s + 4];
        let x = IoAttachEvent::AttachedVirtualIo { io_type_id, port_a, port_b };
        assert(attach_event_bytes(x) =~= b@.subrange(s as int, e as int));
        Some(x)
    } else {
        None
    }
}

/// Reads 16-bit values, each little-endian, from `b[s..e]`.
pub fn read_le16_all(b: &[u8], s: usize, e: usize) -> (r: Vec<u16>)
    requires
        s <= e <= b@.len(),
        (e - s) % 2 == 0,
    ensures
        le16_seq(r@) == b@.subrange(s as int, e as int),
{
    let mut r: Vec<u16> = Vec::new();
    let mut i = s;
    while i < e
        invariant
            s <= i <= e <= b@.len(),
            (e - i) % 2 == 0,
            le16_seq(r@) == b@.subrange(s as int, i as int),
        decreases e - i,
    {
        let v = read_le16(b, i);
        proof {
            lemma_le16_seq_push(r@, v);
        }
        r.push(v);
        assert(le16_seq(r@) =~= b@.subrange(s as int, i + 2));
        i = i + 2;
    }
    r
}

fn decode_port_information(b: &[u8], s: usize, e: usize) -> (r: Option<PortInformationType>)
    requires
        s < e <= b@.len(),
    ensures
        r is Some <==> ((b@[s as int] == 1 && e - s == 7) || (b@[s as int] == 2 && (e - s - 1) % 2
            == 0)),
        r matches Some(x) ==> port_information_bytes(x) == b@.subrange(s as int, e as int),
{
    let k = b[s];
    let x = if k == 1 && e - s == 7 {
        PortInformationType::ModeInfo {
            capabilities: b[s + 1],
            mode_count: b[s + 2],
            input_modes: read_le16(b, s + 3),
            output_modes: read_le16(b, s + 5),
        }
    } else if k == 2 && (e - s - 1) % 2 == 0 {
        PortInformationType::PossibleModeCombinations(read_le16_all(b, s + 1, e))
    } else {
        return None;
    };
    assert(port_information_bytes(x) =~= b@.subrange(s as int, e as int));
    Some(x)
}

fn decode_mode_information(b: &[u8], s: usize, e: usize) -> (r: Option<PortModeInformationType>)
    requires
        s <= e <= b@.len(),
    ensures
        r is Some <==> mode_information_ok(b@.subrange(s as int, e as int)),
        r matches Some(x) ==> mode_information_bytes(x) == b@.subrange(s as int, e as int),
{
    if s == e {
        return None;
    }
    let k = b[s];
    let n = e - s;
    let x = if k == 0x00 {
        PortModeInformationType::Name(copy_range(b, s + 1, e))
    } else if k == 0x04 {
        PortModeInformationType::Symbol(copy_range(b, s + 1, e))
    } else if k == 0x01 && n == 9 {
        PortModeInformationType::RawRange { min: read_le32(b, s + 1), max: read_le32(b, s + 5) }
    } else if k == 0x02 && n == 9 {
        PortModeInformationType::PctRange { min: read_le32(b, s + 1), max: read_le32(b, s + 5) }
    } else if k == 0x03 && n == 9 {
        PortModeInformationType::SiRange { min: read_le32(b, s + 1), max: read_le32(b, s + 5) }
    } else if k == 0x05 && n == 3 {
        PortModeInformationType::Mapping { input: b[s + 1], output: b[s + 2] }
    } else if k == 0x07 && n == 2 {
        PortModeInformationType::MotorBias(b[s + 1])
    } else if k == 0x80 && n == 5 {
        match DatasetType::from_code(b[s + 2]) {
            Some(t) => PortModeInformationType::ValueFormat(
                ValueFormatType {
                    number_of_datasets: b[s + 1],
                    dataset_type: t,
                    total_figures: b[s + 3],
                    decimals: b[s + 4],
                },
            ),
            None => {
                return None;
            },
        }
    } else {
        return None;
    };
    assert(mode_information_bytes(x) =~= b@.subrange(s as int, e as int));
    Some(x)
}

fn decode_subcommand(b: &[u8], s: usize, e: usize) -> (r: Option<PortOutputSubcommand>)
    requires
        s <= e <= b@.len(),
    ensures
        r is Some <==> subcommand_ok(b@.subrange(s as int, e as int)),
        r matches Some(x) ==> subcommand_bytes(x) == b@.subrange(s as int, e as int),
{
    if s == e {
        return None;
    }
    let k = b[s];
    let n = e - s;
    let x = if k == 0x07 && n == 4 && b[s + 3] < 4 {
        let (acc, dec) = byte_to_profile(b[s + 3]);
        PortOutputSubcommand::StartSpeed {
            speed: from_byte_i8(b[s + 1]),
            max_power: b[s + 2],
            use_acc_profile: acc,
            use_dec_profile: dec,
        }
    } else if k == 0x0D && n == 9 && b[s + 8] < 4 {
        let (acc, dec) = byte_to_profile(b[s + 8]);
        let pos = from_bits_i32(read_le32(b, s + 1));
        match EndState::from_code(b[s + 7]) {
            Some(end_state) => PortOutputSubcommand::GotoAbsolutePosition {
                abs_pos: pos,
                speed: from_byte_i8(b[s + 5]),
                max_power: b[s + 6],
                end_state,
                use_acc_profile: acc,
                use_dec_profile: dec,
            },
            None => {
                return None;
            },
        }
    } else if k == 0x51 && n >= 2 {
        PortOutputSubcommand::WriteDirectModeData { mode: b[s + 1], payload: copy_range(b, s + 2, e) }
    } else {
        return None;
    };
    assert(subcommand_bytes(x) =~= b@.subrange(s as int, e as int));
    Some(x)
}

fn decode_startup_completion(v: u8) -> (r: Option<(StartupInfo, CompletionInfo)>)
    ensures
        r is Some <==> startup_completion_ok(v),
        r matches Some((s, c)) ==> startup_completion_byte(s, c) == v,
{
    let s = if v / 16 == 0 {
        StartupInfo::BufferIfNecessary
    } else if v / 16 == 1 {
        StartupInfo::ExecuteImmediately
    } else {
        return None;
    };
    let c = if v % 16 == 0 {
        CompletionInfo::NoAction
    } else if v % 16 == 1 {
        CompletionInfo::CommandFeedback
    } else {
        return None;
    };
    Some((s, c))
}

fn bool_to_byte(b: bool) -> (r: u8)
    ensures
        r == bool_byte(b),
{
    if b { 1 } else { 0 }
}

fn profile_to_byte(acc: bool, dec: bool) -> (r: u8)
    ensures
        r == profile_byte(acc, dec),
{
    bool_to_byte(acc) + 2 * bool_to_byte(dec)
}

fn push_attach_event(out: &mut Vec<u8>, e: IoAttachEvent)
    ensures
        final(out)@ == old(out)@ + attach_event_bytes(e),
{
    let ghost before = out@;
    match e {
        IoAttachEvent::DetachedIo => {
            out.push(0);
        },
        IoAttachEvent::AttachedIo { io_type_id, hw_rev, fw_rev } => {
            out.push(1);
            push_le16(out, io_type_id);
            push_le32(out, hw_rev);
            push_le32(out, fw_rev);
        },
        IoAttachEvent::AttachedVirtualIo { io_type_id, port_a, port_b } => {
            out.push(2);
            push_le16(out, io_type_id);
            out.push(port_a);
            out.push(port_b);
        },
    }
    assert(out@ =~= before + attach_event_bytes(e));
}

/// Appends 16-bit values one after another, each little-endian.
pub fn push_le16_all(out: &mut Vec<u8>, v: &Vec<u16>)
    ensures
        final(out)@ == old(out)@ + le16_seq(v@),
{
    let ghost before = out@;
    let mut i: usize = 0;
    while i < v.len()
        invariant
            i <= v@.len(),
            out@ == before + le16_seq(v@.take(i as int)),
        decreases v@.len() - i,
    {
        proof {
            lemma_le16_seq_push(v@.take(i as int), v@[i as int]);
            assert(v@.take(i as int).push(v@[i as int]) =~= v@.take(i + 1));
        }
        push_le16(out, v[i]);
        assert(out@ =~= before + le16_seq(v@.take(i + 1)));
        i = i + 1;
    }
    assert(v@.take(v@.len() as int) =~= v@);
}

fn push_port_information(out: &mut Vec<u8>, t: &PortInformationType)
    ensures
        final(out)@ == old(out)@ + port_information_bytes(*t),
{
    let ghost before = out@;
    match t {
        PortInformationType::ModeInfo { capabilities, mode_count, input_modes, output_modes } => {
            out.push(1);
            out.push(*capabilities);
            out.push(*mode_count);
            push_le16(out, *input_modes);
            push_le16(out, *output_modes);
        },
        PortInformationType::PossibleModeCombinations(v) => {
            out.push(2);
            push_le16_all(out, v);
        },
    }
    assert(out@ =~= before + port_information_bytes(*t));
}

fn push_mode_information(out: &mut Vec<u8>, t: &PortModeInformationType)
    ensures
        final(out)@ == old(out)@ + mode_information_bytes(*t),
{
    let ghost before = out@;
    match t {
        PortModeInformationType::Name(v) => {
            out.push(0x00);
            push_all(out, v);
        },
        PortModeInformationType::RawRange { min, max } => {
            out.push(0x01);
            push_le32(out, *min);
            push_le32(out, *max);
        },
        PortModeInformationType::PctRange { min, max } => {
            out.push(0x02);
            push_le32(out, *min);
            push_le32(out, *max);
        },
        PortModeInformationType::SiRange { min, max } => {
            out.push(0x03);
            push_le32(out, *min);
            push_le32(out, *max);
        },
        PortModeInformationType::Symbol(v) => {
            out.push(0x04);
            push_all(out, v);
        },
        PortModeInformationType::Mapping { input, output } => {
            out.push(0x05);
            out.push(*input);
            out.push(*output);
        },
        PortModeInformationType::MotorBias(b) => {
            out.push(0x07);
            out.push(*b);
        },
        PortModeInformationType::ValueFormat(f) => {
            out.push(0x80);
            out.push(f.number_of_datasets);
            out.push(f.dataset_type.code());
            out.push(f.total_figures);
            out.push(f.decimals);
        },
    }
    assert(out@ =~= before + mode_information_bytes(*t));
}

fn push_subcommand(out: &mut Vec<u8>, c: &PortOutputSubcommand)
    ensures
        final(out)@ == old(out)@ + subcommand_bytes(*c),
{
    let ghost before = out@;
    match c {
        PortOutputSubcommand::StartSpeed { speed, max_power, use_acc_profile, use_dec_profile } => {
            out.push(0x07);
            out.push(to_byte_i8(*speed));
            out.push(*max_power);
            out.push(profile_to_byte(*use_acc_profile, *use_dec_profile));
        },
        PortOutputSubcommand::GotoAbsolutePosition {
            abs_pos,
            speed,
            max_power,
            end_state,
            use_acc_profile,
            use_dec_profile,
        } => {
            out.push(0x0D);
            push_le32(out, to_bits_i32(*abs_pos));
            out.push(to_byte_i8(*speed));
            out.push(*max_power);
            out.push(end_state.code());
            out.push(profile_to_byte(*use_acc_profile, *use_dec_profile));
        },
        PortOutputSubcommand::WriteDirectModeData { mode, payload } => {
            out.push(0x51);
            out.push(*mode);
            push_all(out, payload);
        },
    }
    assert(out@ =~= before + subcommand_bytes(*c));
}

fn push_input_setup(out: &mut Vec<u8>, s: &InputSetupSingle)
    ensures
        final(out)@ == old(out)@ + input_setup_bytes(*s),
{
    let ghost before = out@;
    out.push(s.port_id);
    out.push(s.mode);
    push_le32(out, s.delta);
    out.push(bool_to_byte(s.notification_enabled));
    assert(out@ =~= before + input_setup_bytes(*s));
}

impl NotificationMessage {
    pub fn type_byte(&self) -> (r: u8)
        ensures
            r == self.type_code(),
    {
        match self {
            NotificationMessage::HubProperties(_) => 0x01,
            NotificationMessage::HubActions(_) => 0x02,
            NotificationMessage::HubAlerts(_) => 0x03,
            NotificationMessage::HubAttachedIo(_) => 0x04,
            NotificationMessage::GenericErrorMessages(_) => 0x05,
            NotificationMessage::HwNetworkCommands(_) => 0x08,
            NotificationMessage::PortInformationRequest(_) => 0x21,
            NotificationMessage::PortModeInformationRequest(_) => 0x22,
            NotificationMessage::PortInputFormatSetupSingle(_) => 0x41,
            NotificationMessage::PortInformation(_) => 0x43,
            NotificationMessage::PortModeInformation(_) => 0x44,
            NotificationMessage::PortValueSingle(_) => 0x45,
            NotificationMessage::PortValueCombined(_) => 0x46,
            NotificationMessage::PortInputFormatSingle(_) => 0x47,
            NotificationMessage::PortOutputCommand(_) => 0x81,
            NotificationMessage::PortOutputCommandFeedback(_) => 0x82,
        }
    }

    /// The payload of the frame, after the type byte.
    pub fn payload(&self) -> (r: Vec<u8>)
        ensures
            r@ == self.payload_bytes(),
    {
        let mut out: Vec<u8> = Vec::new();
        match self {
            NotificationMessage::HubProperties(p) => {
                out.push(p.reference.code());
                out.push(p.operation.code());
                push_all(&mut out, &p.payload);
            },
            NotificationMessage::HubActions(a) => {
                out.push(a.action_type.code());
            },
            NotificationMessage::HubAlerts(a) => {
                out.push(a.alert_type.code());
                out.push(a.operation.code());
                if a.operation == AlertOperation::Update {
                    out.push(a.payload.code());
                }
            },
            NotificationMessage::HubAttachedIo(a) => {
                out.push(a.port);
                push_attach_event(&mut out, a.event);
            },
            NotificationMessage::GenericErrorMessages(e) => {
                out.push(e.command_type);
                out.push(e.error_code.code());
            },
            NotificationMessage::HwNetworkCommands(c) => {
                push_all(&mut out, &c.payload);
            },
            NotificationMessage::PortInformationRequest(r) => {
                out.push(r.port_id);
                out.push(r.information_type.code());
            },
            NotificationMessage::PortModeInformationRequest(r) => {
                out.push(r.port_id);
                out.push(r.mode);
                out.push(r.information_type.code());
            },
            NotificationMessage::PortInputFormatSetupSingle(s) => {
                push_input_setup(&mut out, s);
            },
            NotificationMessage::PortInformation(v) => {
                out.push(v.port_id);
                push_port_information(&mut out, &v.information_type);
            },
            NotificationMessage::PortModeInformation(v) => {
                out.push(v.port_id);
                out.push(v.mode);
                push_mode_information(&mut out, &v.information_type);
            },
            NotificationMessage::PortValueSingle(v) => {
                out.push(v.port_id);
                push_all(&mut out, &v.data);
            },
            NotificationMessage::PortValueCombined(v) => {
                out.push(v.port_id);
                push_le16(&mut out, v.mode_pointers);
                push_all(&mut out, &v.data);
            },
            NotificationMessage::PortInputFormatSingle(s) => {
                push_input_setup(&mut out, s);
            },
            NotificationMessage::PortOutputCommand(c) => {
                out.push(c.port_id);
                out.push(c.startup_info.code() * 16 + c.completion_info.code());
                push_subcommand(&mut out, &c.subcommand);
            },
            NotificationMessage::PortOutputCommandFeedback(f) => {
                out.push(f.port_id);
                out.push(f.feedback);
            },
        }
        assert(out@ =~= self.payload_bytes());
        out
    }

    /// The frame that stands for this message.
    pub fn encode(&self) -> (r: Vec<u8>)
        requires
            self.wf(),
        ensures
            r@ == self.spec_encode(),
    {
        let p = self.payload();
        build_frame(self.type_byte(), &p)
    }
}

/// The message of type `ty` whose payload is `b[s..e]`, if there is one.
fn decode_payload(ty: u8, b: &[u8], s: usize, e: usize) -> (r: Option<NotificationMessage>)
    requires
        s <= e <= b@.len(),
    ensures
        r is Some <==> payload_ok(ty, b@.subrange(s as int, e as int)),
        r matches Some(m) ==> m.type_code() == ty && m.payload_bytes() == b@.subrange(
            s as int,
            e as int,
        ),
        r matches Some(m) ==> (m matches NotificationMessage::HubAlerts(a) ==> (a.operation
            != AlertOperation::Update ==> a.payload == AlertPayload::StatusOk)),
{
    let ghost p = b@.subrange(s as int, e as int);
    let n = e - s;
    if ty == 0x01 {
        if n < 2 {
            return None;
        }
        let reference = HubPropertyRef::from_code(b[s]);
        let operation = HubPropertyOperation::from_code(b[s + 1]);
        match (reference, operation) {
            (Some(reference), Some(operation)) => {
                let m = NotificationMessage::HubProperties(
                    HubProperty { reference, operation, payload: copy_range(b, s + 2, e) },
                );
                assert(m.payload_bytes() =~= p);
                Some(m)
            },
            _ => None,
        }
    } else if ty == 0x02 {
        if n != 1 {
            return None;
        }
        match HubAction::from_code(b[s]) {
            Some(action_type) => {
                let m = NotificationMessage::HubActions(HubActionRequest { action_type });
                assert(m.payload_bytes() =~= p);
                Some(m)
            },
            None => None,
        }
    } else if ty == 0x03 {
        if n < 2 {
            return None;
        }
        let alert_type = AlertType::from_code(b[s]);
        let operation = AlertOperation::from_code(b[s + 1]);
        let payload = if b[s + 1] == 0x04 {
            if n != 3 {
                return None;
            }
            AlertPayload::from_code(b[s + 2])
        } else {
            if n != 2 {
                return None;
            }
            Some(AlertPayload::StatusOk)
        };
        match (alert_type, operation, payload) {
            (Some(alert_type), Some(operation), Some(payload)) => {
                let m = NotificationMessage::HubAlerts(HubAlert { alert_type, operation, payload });
                assert(m.payload_bytes() =~= p);
                Some(m)
            },
            _ => None,
        }
    } else if ty == 0x04 {
        if n < 2 {
            return None;
        }
        match decode_attach_event(b, s + 1, e) {
            Some(event) => {
                let m = NotificationMessage::HubAttachedIo(AttachedIo { port: b[s], event });
                assert(m.payload_bytes() =~= p);
                Some(m)
            },
            None => None,
        }
    } else if ty == 0x05 {
        if n != 2 {
            return None;
        }
        match ErrorCode::from_code(b[s + 1]) {
            Some(error_code) => {
                let m = NotificationMessage::GenericErrorMessages(
                    ErrorMessageFormat { command_type: b[s], error_code },
                );
                assert(m.payload_bytes() =~= p);
                Some(m)
            },
            None => None,
        }
    } else if ty == 0x08 {
        Some(NotificationMessage::HwNetworkCommands(NetworkCommand { payload: copy_range(b, s, e) }))
    } else if ty == 0x21 {
        if n != 2 {
            return None;
        }
        match InformationType::from_code(b[s + 1]) {
            Some(information_type) => {
                let m = NotificationMessage::PortInformationRequest(
                    InformationRequest { port_id: b[s], information_type },
                );
                assert(m.payload_bytes() =~= p);
                Some(m)
            },
            None => None,
        }
    } else if ty == 0x22 {
        if n != 3 {
            return None;
        }
        match ModeInformationType::from_code(b[s + 2]) {
            Some(information_type) => {
                let m = NotificationMessage::PortModeInformationRequest(
                    ModeInformationRequest { port_id: b[s], mode: b[s + 1], information_type },
                );
                assert(m.payload_bytes() =~= p);
                Some(m)
            },
            None => None,
        }
    } else if ty == 0x41 {
        match decode_input_setup(b, s, e) {
            Some(x) => Some(NotificationMessage::PortInputFormatSetupSingle(x)),
            None => None,
        }
    } else if ty == 0x47 {
        match decode_input_setup(b, s, e) {
            Some(x) => Some(NotificationMessage::PortInputFormatSingle(x)),
            None => None,
        }
    } else if ty == 0x43 {
        if n < 2 {
            return None;
        }
        match decode_port_information(b, s + 1, e) {
            Some(information_type) => {
                let m = NotificationMessage::PortInformation(
                    PortInformationValue { port_id: b[s], information_type },
                );
                assert(m.payload_bytes() =~= p);
                Some(m)
            },
            None => None,
        }
    } else if ty == 0x44 {
        if n < 2 {
            return None;
        }
        assert(b@.subrange(s + 2, e as int) =~= p.subrange(2, p.len() as int));
        match decode_mode_information(b, s + 2, e) {
            Some(information_type) => {
                let m = NotificationMessage::PortModeInformation(
                    PortModeInformationValue { port_id: b[s], mode: b[s + 1], information_type },
                );
                assert(m.payload_bytes() =~= p);
                Some(m)
            },
            None => None,
        }
    } else if ty == 0x45 {
        if n < 1 {
            return None;
        }
        let m = NotificationMessage::PortValueSingle(
            PortValueSingleFormat { port_id: b[s], data: copy_range(b, s + 1, e) },
        );
        assert(m.payload_bytes() =~= p);
        Some(m)
    } else if ty == 0x46 {
        if n < 3 {
            return None;
        }
        let mode_pointers = read_le16(b, s + 1);
        let m = NotificationMessage::PortValueCombined(
            PortValueCombinedFormat { port_id: b[s], mode_pointers, data: copy_range(b, s + 3, e) },
        );
        assert(m.payload_bytes() =~= p);
        Some(m)
    } else if ty == 0x81 {
        if n < 2 {
            return None;
        }
        assert(b@.subrange(s + 2, e as int) =~= p.subrange(2, p.len() as int));
        match (decode_startup_completion(b[s + 1]), decode_subcommand(b, s + 2, e)) {
            (Some((startup_info, completion_info)), Some(subcommand)) => {
                let m = NotificationMessage::PortOutputCommand(
                    PortOutputCommandFormat {
                        port_id: b[s],
                        startup_info,
                        completion_info,
                        subcommand,
                    },
                );
                assert(m.payload_bytes() =~= p);
                Some(m)
            },
            _ => None,
        }
    } else if ty == 0x82 {
        if n != 2 {
            return None;
        }
        let m = NotificationMessage::PortOutputCommandFeedback(
            PortOutputCommandFeedbackFormat { port_id: b[s], feedback: b[s + 1] },
        );
        assert(m.payload_bytes() =~= p);
        Some(m)
    } else {
        None
    }
}

/// Decodes the frame at the start of `b`. It succeeds exactly on the frames that some
/// message encodes to, and gives that message; bytes after the declared length are not read.
pub fn decode(b: &[u8]) -> (r: Result<NotificationMessage, Error>)
    ensures
        r is Ok <==> frame_ok(b@),
        r matches Ok(m) ==> m.wf() && m.spec_encode() == b@.take(declared_len(b@)),
        r matches Err(e) ==> e == Error::Malformed,
{
    match read_header(b) {
        None => Err(Error::Malformed),
        Some((s, e)) => {
            let ty = b[s - 1];
            match decode_payload(ty, b, s, e) {
                Some(m) => {
                    proof {
                        lemma_header_frame(b@);
                    }
                    Ok(m)
                },
                None => Err(Error::Malformed),
            }
        },
    }
}

/// A frame cut short anywhere is never accepted: `decode` reports it as malformed.
pub proof fn lemma_truncated_frame_rejected(m: NotificationMessage, n: int)
    requires
        m.wf(),
        0 <= n < m.spec_encode().len(),
    ensures
        !frame_ok(m.spec_encode().take(n)),
{
    let f = m.spec_encode();
    lemma_frame_header(m.type_code(), m.payload_bytes());
    let t = f.take(n);
    if n > 0 {
        assert(t[0] == f[0]);
        if f[0] >= 128 && n >= 2 {
            assert(t[1] == f[1]);
        }
    }
}

/// Every message that can be sent encodes to a frame that `decode` accepts, and the frame
/// is exactly as long as it declares; so decoding an encoding gives back a message with
/// that same encoding (see `lemma_encoding_injective` for why that message is the one encoded).
pub proof fn lemma_round_trip(m: NotificationMessage)
    requires
        m.wf(),
    ensures
        frame_ok(m.spec_encode()),
        declared_len(m.spec_encode()) == m.spec_encode().len(),
        m.spec_encode().take(declared_len(m.spec_encode())) == m.spec_encode(),
{
    let f = m.spec_encode();
    let p = m.payload_bytes();
    lemma_frame_header(m.type_code(), p);
    assert(f.take(f.len() as int) =~= f);
    match m {
        NotificationMessage::PortInformation(v) => {
            match v.information_type {
                PortInformationType::PossibleModeCombinations(c) => {
                    lemma_le16_seq_len(c@);
                },
                _ => {},
            }
        },
        NotificationMessage::PortModeInformation(v) => {
            assert(p.subrange(2, p.len() as int) =~= mode_information_bytes(v.information_type));
        },
        NotificationMessage::PortOutputCommand(c) => {
            assert(p.subrange(2, p.len() as int) =~= subcommand_bytes(c.subcommand));
        },
        _ => {},
    }
}

pub open spec fn same_port_information(a: PortInformationType, b: PortInformationType) -> bool {
    match a {
        PortInformationType::PossibleModeCombinations(x) => b is PossibleModeCombinations && x@
            == b->PossibleModeCombinations_0@,
        _ => a == b,
    }
}

pub open spec fn same_mode_information(a: PortModeInformationType, b: PortModeInformationType) -> bool {
    match a {
        PortModeInformationType::Name(x) => b is Name && x@ == b->Name_0@,
        PortModeInformationType::Symbol(x) => b is Symbol && x@ == b->Symbol_0@,
        _ => a == b,
    }
}

pub open spec fn same_subcommand(a: PortOutputSubcommand, b: PortOutputSubcommand) -> bool {
    match a {
        PortOutputSubcommand::WriteDirectModeData { mode, payload } => b is WriteDirectModeData
            && mode == b->WriteDirectModeData_mode && payload@ == b->WriteDirectModeData_payload@,
        _ => a == b,
    }
}

impl NotificationMessage {
    /// The two messages hold the same values: equal fields, and byte vectors with equal
    /// contents.
    pub open spec fn same_as(&self, o: &NotificationMessage) -> bool {
        match *self {
            NotificationMessage::HubProperties(a) => o is HubProperties && {
                let b = o->HubProperties_0;
                a.reference == b.reference && a.operation == b.operation && a.payload@ == b.payload@
            },
            NotificationMessage::HwNetworkCommands(a) => o is HwNetworkCommands && a.payload@
                == o->HwNetworkCommands_0.payload@,
            NotificationMessage::PortInformation(a) => o is PortInformation && {
                let b = o->PortInformation_0;
                a.port_id == b.port_id && same_port_information(a.information_type, b.information_type)
            },
            NotificationMessage::PortModeInformation(a) => o is PortModeInformation && {
                let b = o->PortModeInformation_0;
                a.port_id == b.port_id && a.mode == b.mode && same_mode_information(
                    a.information_type,
                    b.information_type,
                )
            },
            NotificationMessage::PortValueSingle(a) => o is PortValueSingle && {
                let b = o->PortValueSingle_0;
                a.port_id == b.port_id && a.data@ == b.data@
            },
            NotificationMessage::PortValueCombined(a) => o is PortValueCombined && {
                let b = o->PortValueCombined_0;
                a.port_id == b.port_id && a.mode_pointers == b.mode_pointers && a.data@ == b.data@
            },
            NotificationMessage::PortOutputCommand(a) => o is PortOutputCommand && {
                let b = o->PortOutputCommand_0;
                a.port_id == b.port_id && a.startup_info == b.startup_info && a.completion_info
                    == b.completion_info && same_subcommand(a.subcommand, b.subcommand)
            },
            _ => *self == *o,
        }
    }
}

pub open spec fn attach_event_tag(e: IoAttachEvent) -> u8 {
    match e {
        IoAttachEvent::DetachedIo => 0,
        IoAttachEvent::AttachedIo { .. } => 1,
        IoAttachEvent::AttachedVirtualIo { .. } => 2,
    }
}

pub open spec fn mode_information_tag(t: PortModeInformationType) -> u8 {
    match t {
        PortModeInformationType::Name(_) => 0x00,
        PortModeInformationType::RawRange { .. } => 0x01,
        PortModeInformationType::PctRange { .. } => 0x02,
        PortModeInformationType::SiRange { .. } => 0x03,
        PortModeInformationType::Symbol(_) => 0x04,
        PortModeInformationType::Mapping { .. } => 0x05,
        PortModeInformationType::MotorBias(_) => 0x07,
        PortModeInformationType::ValueFormat(_) => 0x80,
    }
}

pub open spec fn subcommand_tag(c: PortOutputSubcommand) -> u8 {
    match c {
        PortOutputSubcommand::StartSpeed { .. } => 0x07,
        PortOutputSubcommand::GotoAbsolutePosition { .. } => 0x0D,
        PortOutputSubcommand::WriteDirectModeData { .. } => 0x51,
    }
}

proof fn lemma_tags(e: IoAttachEvent, t: PortModeInformationType, c: PortOutputSubcommand)
    ensures
        attach_event_bytes(e).len() >= 1 && attach_event_bytes(e)[0] == attach_event_tag(e),
        mode_information_bytes(t).len() >= 1 && mode_information_bytes(t)[0]
            == mode_information_tag(t),
        subcommand_bytes(c).len() >= 1 && subcommand_bytes(c)[0] == subcommand_tag(c),
{
    match e {
        IoAttachEvent::DetachedIo => {},
        IoAttachEvent::AttachedIo { io_type_id, hw_rev, fw_rev } => {
            assert((seq![1u8] + le16(io_type_id) + le32(hw_rev) + le32(fw_rev))[0] == 1);
        },
        IoAttachEvent::AttachedVirtualIo { io_type_id, port_a, port_b } => {
            assert((seq![2u8] + le16(io_type_id) + seq![port_a, port_b])[0] == 2);
        },
    }
    match t {
        PortModeInformationType::Name(v) => {
            assert((seq![0x00u8] + v@)[0] == 0x00);
        },
        PortModeInformationType::RawRange { min, max } => {
            assert((seq![0x01u8] + le32(min) + le32(max))[0] == 0x01);
        },
        PortModeInformationType::PctRange { min, max } => {
            assert((seq![0x02u8] + le32(min) + le32(max))[0] == 0x02);
        },
        PortModeInformationType::SiRange { min, max } => {
            assert((seq![0x03u8] + le32(min) + le32(max))[0] == 0x03);
        },
        PortModeInformationType::Symbol(v) => {
            assert((seq![0x04u8] + v@)[0] == 0x04);
        },
        _ => {},
    }
    match c {
        PortOutputSubcommand::GotoAbsolutePosition { abs_pos, speed, max_power, end_state, use_acc_profile, use_dec_profile } => {
            assert((seq![0x0Du8] + le32(i32_bits(abs_pos)) + seq![
                i8_byte(speed),
                max_power,
                end_state.spec_code(),
                profile_byte(use_acc_profile, use_dec_profile),
            ])[0] == 0x0D);
        },
        PortOutputSubcommand::WriteDirectModeData { mode, payload } => {
            assert((seq![0x51u8, mode] + payload@)[0] == 0x51);
        },
        _ => {},
    }
}

proof fn lemma_attach_event_injective(a: IoAttachEvent, b: IoAttachEvent)
    requires
        attach_event_bytes(a) == attach_event_bytes(b),
    ensures
        a == b,
{
    let x = attach_event_bytes(a);
    let y = attach_event_bytes(b);
    lemma_tags(a, PortModeInformationType::MotorBias(0), PortOutputSubcommand::StartSpeed { speed: 0, max_power: 0, use_acc_profile: false, use_dec_profile: false });
    lemma_tags(b, PortModeInformationType::MotorBias(0), PortOutputSubcommand::StartSpeed { speed: 0, max_power: 0, use_acc_profile: false, use_dec_profile: false });
    assert(attach_event_tag(a) == attach_event_tag(b));
    match (a, b) {
        (
            IoAttachEvent::AttachedIo { io_type_id: i1, hw_rev: h1, fw_rev: f1 },
            IoAttachEvent::AttachedIo { io_type_id: i2, hw_rev: h2, fw_rev: f2 },
        ) => {
            assert(x.subrange(1, 3) =~= le16(i1));
            assert(y.subrange(1, 3) =~= le16(i2));
            assert(x.subrange(3, 7) =~= le32(h1));
            assert(y.subrange(3, 7) =~= le32(h2));
            assert(x.subrange(7, 11) =~= le32(f1));
            assert(y.subrange(7, 11) =~= le32(f2));
            lemma_le16_injective(i1, i2);
            lemma_le32_injective(h1, h2);
            lemma_le32_injective(f1, f2);
        },
        (
            IoAttachEvent::AttachedVirtualIo { io_type_id: i1, port_a: a1, port_b: b1 },
            IoAttachEvent::AttachedVirtualIo { io_type_id: i2, port_a: a2, port_b: b2 },
        ) => {
            assert(x.subrange(1, 3) =~= le16(i1));
            assert(y.subrange(1, 3) =~= le16(i2));
            lemma_le16_injective(i1, i2);
            assert(x[3] == a1 && x[4] == b1 && y[3] == a2 && y[4] == b2);
        },
        _ => {},
    }
}

proof fn lemma_port_information_injective(a: PortInformationType, b: PortInformationType)
    requires
        port_information_bytes(a) == port_information_bytes(b),
    ensures
        same_port_information(a, b),
{
    let x = port_information_bytes(a);
    let y = port_information_bytes(b);
    assert(x[0] == y[0]);
    match a {
        PortInformationType::ModeInfo { .. } => assert(x[0] == 1),
        PortInformationType::PossibleModeCombinations(c) => assert(x[0] == 2),
    }
    match b {
        PortInformationType::ModeInfo { .. } => assert(y[0] == 1),
        PortInformationType::PossibleModeCombinations(c) => assert(y[0] == 2),
    }
    match (a, b) {
        (
            PortInformationType::ModeInfo {
                capabilities: c1,
                mode_count: n1,
                input_modes: i1,
                output_modes: o1,
            },
            PortInformationType::ModeInfo {
                capabilities: c2,
                mode_count: n2,
                input_modes: i2,
                output_modes: o2,
            },
        ) => {
            assert(x[1] == c1 && x[2] == n1 && y[1] == c2 && y[2] == n2);
            assert(x.subrange(3, 5) =~= le16(i1));
            assert(y.subrange(3, 5) =~= le16(i2));
            assert(x.subrange(5, 7) =~= le16(o1));
            assert(y.subrange(5, 7) =~= le16(o2));
            lemma_le16_injective(i1, i2);
            lemma_le16_injective(o1, o2);
        },
        (
            PortInformationType::PossibleModeCombinations(c1),
            PortInformationType::PossibleModeCombinations(c2),
        ) => {
            assert(x.subrange(1, x.len() as int) =~= le16_seq(c1@));
            assert(y.subrange(1, y.len() as int) =~= le16_seq(c2@));
            lemma_le16_seq_injective(c1@, c2@);
        },
        _ => {},
    }
}

proof fn lemma_mode_information_injective(a: PortModeInformationType, b: PortModeInformationType)
    requires
        mode_information_bytes(a) == mode_information_bytes(b),
    ensures
        same_mode_information(a, b),
{
    let x = mode_information_bytes(a);
    let y = mode_information_bytes(b);
    lemma_tags(IoAttachEvent::DetachedIo, a, PortOutputSubcommand::StartSpeed { speed: 0, max_power: 0, use_acc_profile: false, use_dec_profile: false });
    lemma_tags(IoAttachEvent::DetachedIo, b, PortOutputSubcommand::StartSpeed { speed: 0, max_power: 0, use_acc_profile: false, use_dec_profile: false });
    assert(mode_information_tag(a) == mode_information_tag(b));
    match (a, b) {
        (PortModeInformationType::Name(v1), PortModeInformationType::Name(v2)) => {
            assert(x.subrange(1, x.len() as int) =~= v1@);
            assert(y.subrange(1, y.len() as int) =~= v2@);
        },
        (PortModeInformationType::Symbol(v1), PortModeInformationType::Symbol(v2)) => {
            assert(x.subrange(1, x.len() as int) =~= v1@);
            assert(y.subrange(1, y.len() as int) =~= v2@);
        },
        (
            PortModeInformationType::RawRange { min: a1, max: b1 },
            PortModeInformationType::RawRange { min: a2, max: b2 },
        ) => {
            assert(x.subrange(1, 9) =~= le32(a1) + le32(b1));
            assert(y.subrange(1, 9) =~= le32(a2) + le32(b2));
            lemma_range_bytes_injective(x, y, a1, b1, a2, b2);
        },
        (
            PortModeInformationType::PctRange { min: a1, max: b1 },
            PortModeInformationType::PctRange { min: a2, max: b2 },
        ) => {
            assert(x.subrange(1, 9) =~= le32(a1) + le32(b1));
            assert(y.subrange(1, 9) =~= le32(a2) + le32(b2));
            lemma_range_bytes_injective(x, y, a1, b1, a2, b2);
        },
        (
            PortModeInformationType::SiRange { min: a1, max: b1 },
            PortModeInformationType::SiRange { min: a2, max: b2 },
        ) => {
            assert(x.subrange(1, 9) =~= le32(a1) + le32(b1));
            assert(y.subrange(1, 9) =~= le32(a2) + le32(b2));
            lemma_range_bytes_injective(x, y, a1, b1, a2, b2);
        },
        (
            PortModeInformationType::Mapping { input: i1, output: o1 },
            PortModeInformationType::Mapping { input: i2, output: o2 },
        ) => {
            assert(x[1] == i1 && x[2] == o1 && y[1] == i2 && y[2] == o2);
        },
        (PortModeInformationType::MotorBias(b1), PortModeInformationType::MotorBias(b2)) => {
            assert(x[1] == b1 && y[1] == b2);
        },
        (PortModeInformationType::ValueFormat(f1), PortModeInformationType::ValueFormat(f2)) => {
            assert(x[1] == f1.number_of_datasets && y[1] == f2.number_of_datasets);
            assert(x[2] == f1.dataset_type.spec_code() && y[2] == f2.dataset_type.spec_code());
            assert(x[3] == f1.total_figures && y[3] == f2.total_figures);
            assert(x[4] == f1.decimals && y[4] == f2.decimals);
        },
        _ => {},
    }
}

proof fn lemma_range_bytes_injective(x: Seq<u8>, y: Seq<u8>, a1: u32, b1: u32, a2: u32, b2: u32)
    requires
        x == y,
        x.len() == 9,
        x.subrange(1, 9) == le32(a1) + le32(b1),
        y.subrange(1, 9) == le32(a2) + le32(b2),
    ensures
        a1 == a2,
        b1 == b2,
{
    assert(x.subrange(1, 5) =~= le32(a1)) by {
        assert(x.subrange(1, 5) =~= x.subrange(1, 9).subrange(0, 4));
    }
    assert(y.subrange(1, 5) =~= le32(a2)) by {
        assert(y.subrange(1, 5) =~= y.subrange(1, 9).subrange(0, 4));
    }
    assert(x.subrange(5, 9) =~= le32(b1)) by {
        assert(x.subrange(5, 9) =~= x.subrange(1, 9).subrange(4, 8));
    }
    assert(y.subrange(5, 9) =~= le32(b2)) by {
        assert(y.subrange(5, 9) =~= y.subrange(1, 9).subrange(4, 8));
    }
    lemma_le32_injective(a1, a2);
    lemma_le32_injective(b1, b2);
}

proof fn lemma_subcommand_injective(a: PortOutputSubcommand, b: PortOutputSubcommand)
    requires
        subcommand_bytes(a) == subcommand_bytes(b),
    ensures
        same_subcommand(a, b),
{
    let x = subcommand_bytes(a);
    let y = subcommand_bytes(b);
    lemma_tags(IoAttachEvent::DetachedIo, PortModeInformationType::MotorBias(0), a);
    lemma_tags(IoAttachEvent::DetachedIo, PortModeInformationType::MotorBias(0), b);
    assert(subcommand_tag(a) == subcommand_tag(b));
    match a {
        PortOutputSubcommand::StartSpeed { speed: s1, max_power: p1, use_acc_profile: c1, use_dec_profile: d1 } => {
            assert(b is StartSpeed);
            let (s2, p2, c2, d2) = (
                b->StartSpeed_speed,
                b->StartSpeed_max_power,
                b->StartSpeed_use_acc_profile,
                b->StartSpeed_use_dec_profile,
            );
            assert(x[1] == i8_byte(s1) && y[1] == i8_byte(s2));
            assert(x[2] == p1 && y[2] == p2);
            assert(x[3] == profile_byte(c1, d1) && y[3] == profile_byte(c2, d2));
            lemma_i8_byte_injective(s1, s2);
            lemma_profile_byte_injective(c1, d1, c2, d2);
        },
        PortOutputSubcommand::GotoAbsolutePosition {
            abs_pos: q1,
            speed: s1,
            max_power: p1,
            end_state: e1,
            use_acc_profile: c1,
            use_dec_profile: d1,
        } => {
            assert(b is GotoAbsolutePosition);
            let (q2, s2, p2, e2, c2, d2) = (
                b->abs_pos,
                b->GotoAbsolutePosition_speed,
                b->GotoAbsolutePosition_max_power,
                b->end_state,
                b->GotoAbsolutePosition_use_acc_profile,
                b->GotoAbsolutePosition_use_dec_profile,
            );
            assert(x.subrange(1, 5) =~= le32(i32_bits(q1)));
            assert(y.subrange(1, 5) =~= le32(i32_bits(q2)));
            lemma_le32_injective(i32_bits(q1), i32_bits(q2));
            lemma_i32_bits_injective(q1, q2);
            assert(x[5] == i8_byte(s1) && y[5] == i8_byte(s2));
            assert(x[6] == p1 && y[6] == p2);
            assert(x[7] == e1.spec_code() && y[7] == e2.spec_code());
            assert(x[8] == profile_byte(c1, d1) && y[8] == profile_byte(c2, d2));
            lemma_i8_byte_injective(s1, s2);
            lemma_profile_byte_injective(c1, d1, c2, d2);
        },
        PortOutputSubcommand::WriteDirectModeData { mode, payload } => {
            assert(b is WriteDirectModeData);
            assert(x[1] == mode && y[1] == b->WriteDirectModeData_mode);
            assert(x.subrange(2, x.len() as int) =~= payload@);
            assert(y.subrange(2, y.len() as int) =~= b->WriteDirectModeData_payload@);
        },
    }
}

proof fn lemma_profile_byte_injective(c1: bool, d1: bool, c2: bool, d2: bool)
    requires
        profile_byte(c1, d1) == profile_byte(c2, d2),
    ensures
        c1 == c2,
        d1 == d2,
{
}

proof fn lemma_i8_byte_injective(a: i8, b: i8)
    requires
        i8_byte(a) == i8_byte(b),
    ensures
        a == b,
{
}

proof fn lemma_i32_bits_injective(a: i32, b: i32)
    requires
        i32_bits(a) == i32_bits(b),
    ensures
        a == b,
{
}

/// Different messages have different encodings: a frame determines the values of the
/// message it encodes. With `lemma_round_trip` and the contract of `decode`, decoding the
/// encoding of a message gives back that message.
pub proof fn lemma_encoding_injective(m1: NotificationMessage, m2: NotificationMessage)
    requires
        m1.wf(),
        m2.wf(),
        m1.spec_encode() == m2.spec_encode(),
    ensures
        m1.same_as(&m2),
{
    let f = m1.spec_encode();
    lemma_frame_header(m1.type_code(), m1.payload_bytes());
    lemma_frame_header(m2.type_code(), m2.payload_bytes());
    let x = m1.payload_bytes();
    let y = m2.payload_bytes();
    assert(x =~= y);
    lemma_payload_injective(m1, m2);
}

#[verifier::rlimit(100)]
proof fn lemma_payload_injective(m1: NotificationMessage, m2: NotificationMessage)
    requires
        m1.type_code() == m2.type_code(),
        m1.payload_bytes() == m2.payload_bytes(),
        m1.wf(),
        m2.wf(),
    ensures
        m1.same_as(&m2),
{
    let x = m1.payload_bytes();
    let y = m2.payload_bytes();
    match m1 {
        NotificationMessage::HubProperties(a) => {
            assert(m2 is HubProperties);
            let b = m2->HubProperties_0;
            assert(x[0] == a.reference.spec_code() && x[1] == a.operation.spec_code());
            assert(y[0] == b.reference.spec_code() && y[1] == b.operation.spec_code());
            assert(x.subrange(2, x.len() as int) =~= a.payload@);
            assert(y.subrange(2, y.len() as int) =~= b.payload@);
        },
        NotificationMessage::HubActions(a) => {
            assert(m2 is HubActions);
            assert(y[0] == m2->HubActions_0.action_type.spec_code());
            assert(x[0] == y[0]);
        },
        NotificationMessage::HubAlerts(a) => {
            assert(m2 is HubAlerts);
            assert(x[0] == y[0] && x[1] == y[1]);
            if a.operation == AlertOperation::Update {
                assert(x[2] == y[2]);
            }
        },
        NotificationMessage::HubAttachedIo(a) => {
            assert(m2 is HubAttachedIo);
            let b = m2->HubAttachedIo_0;
            assert(x[0] == a.port && y[0] == b.port);
            assert(x.subrange(1, x.len() as int) =~= attach_event_bytes(a.event));
            assert(y.subrange(1, y.len() as int) =~= attach_event_bytes(b.event));
            lemma_attach_event_injective(a.event, b.event);
        },
        NotificationMessage::GenericErrorMessages(_) => {
            assert(m2 is GenericErrorMessages);
            assert(x[0] == y[0] && x[1] == y[1]);
        },
        NotificationMessage::HwNetworkCommands(_) => {
            assert(m2 is HwNetworkCommands);},
        NotificationMessage::PortInformationRequest(_) => {
            assert(m2 is PortInformationRequest);
            assert(x[0] == y[0] && x[1] == y[1]);
        },
        NotificationMessage::PortModeInformationRequest(_) => {
            assert(m2 is PortModeInformationRequest);
            assert(x[0] == y[0] && x[1] == y[1] && x[2] == y[2]);
        },
        NotificationMessage::PortInputFormatSetupSingle(a) => {
            assert(m2 is PortInputFormatSetupSingle);
            lemma_input_setup_injective(a, m2->PortInputFormatSetupSingle_0);
        },
        NotificationMessage::PortInputFormatSingle(a) => {
            assert(m2 is PortInputFormatSingle);
            lemma_input_setup_injective(a, m2->PortInputFormatSingle_0);
        },
        NotificationMessage::PortInformation(a) => {
            assert(m2 is PortInformation);
            let b = m2->PortInformation_0;
            assert(x[0] == a.port_id && y[0] == b.port_id);
            assert(x[0] == y[0]);
            assert(x.subrange(1, x.len() as int) =~= port_information_bytes(a.information_type));
            assert(y.subrange(1, y.len() as int) =~= port_information_bytes(b.information_type));
            lemma_port_information_injective(a.information_type, b.information_type);
        },
        NotificationMessage::PortModeInformation(a) => {
            assert(m2 is PortModeInformation);
            let b = m2->PortModeInformation_0;
            assert(x[0] == a.port_id && y[0] == b.port_id && x[1] == a.mode && y[1] == b.mode);
            assert(x[0] == y[0] && x[1] == y[1]);
            assert(x.subrange(2, x.len() as int) =~= mode_information_bytes(a.information_type));
            assert(y.subrange(2, y.len() as int) =~= mode_information_bytes(b.information_type));
            lemma_mode_information_injective(a.information_type, b.information_type);
        },
        NotificationMessage::PortValueSingle(a) => {
            assert(m2 is PortValueSingle);
            let b = m2->PortValueSingle_0;
            assert(x[0] == a.port_id && y[0] == b.port_id);
            assert(x[0] == y[0]);
            assert(x.subrange(1, x.len() as int) =~= a.data@);
            assert(y.subrange(1, y.len() as int) =~= b.data@);
        },
        NotificationMessage::PortValueCombined(a) => {
            assert(m2 is PortValueCombined);
            let b = m2->PortValueCombined_0;
            assert(x[0] == a.port_id && y[0] == b.port_id);
            assert(x[0] == y[0]);
            assert(x.subrange(1, 3) =~= le16(a.mode_pointers));
            assert(y.subrange(1, 3) =~= le16(b.mode_pointers));
            lemma_le16_injective(a.mode_pointers, b.mode_pointers);
            assert(x.subrange(3, x.len() as int) =~= a.data@);
            assert(y.subrange(3, y.len() as int) =~= b.data@);
        },
        NotificationMessage::PortOutputCommand(a) => {
            assert(m2 is PortOutputCommand);
            let b = m2->PortOutputCommand_0;
            assert(x[0] == a.port_id && y[0] == b.port_id);
            assert(x[1] == startup_completion_byte(a.startup_info, a.completion_info));
            assert(y[1] == startup_completion_byte(b.startup_info, b.completion_info));
            assert(x[0] == y[0] && x[1] == y[1]);
            assert(x.subrange(2, x.len() as int) =~= subcommand_bytes(a.subcommand));
            assert(y.subrange(2, y.len() as int) =~= subcommand_bytes(b.subcommand));
            lemma_subcommand_injective(a.subcommand, b.subcommand);
        },
        NotificationMessage::PortOutputCommandFeedback(_) => {
            assert(m2 is PortOutputCommandFeedback);
            assert(x[0] == y[0] && x[1] == y[1]);
        },
    }
}

proof fn lemma_input_setup_injective(a: InputSetupSingle, b: InputSetupSingle)
    requires
        input_setup_bytes(a) == input_setup_bytes(b),
    ensures
        a == b,
{
    let x = input_setup_bytes(a);
    let y = input_setup_bytes(b);
    assert(x[0] == y[0] && x[1] == y[1] && x[6] == y[6]);
    assert(x[0] == a.port_id && x[1] == a.mode && x[6] == bool_byte(a.notification_enabled));
    assert(y[0] == b.port_id && y[1] == b.mode && y[6] == bool_byte(b.notification_enabled));
    assert(x.subrange(2, 6) =~= le32(a.delta));
    assert(y.subrange(2, 6) =~= le32(b.delta));
    lemma_le32_injective(a.delta, b.delta);
}

} // verus!
