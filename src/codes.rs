//! The fixed code tables of the protocol: each enum here stands for one byte on the wire.

use vstd::prelude::*;

verus! {

/// Which hub property a property message is about.
#[derive(Debug, Clone, Copy, PartialEq, Eq, Structural)]
pub enum HubPropertyRef {
    AdvertisingName,
    Button,
    FwVersion,
    HwVersion,
    Rssi,
    /// Battery level in percent.
    BatteryVoltage,
    BatteryType,
    ManufacturerName,
    RadioFirmwareVersion,
    LegoWirelessProtocolVersion,
    SystemTypeId,
    HwNetworkId,
    PrimaryMacAddress,
    SecondaryMacAddress,
    HardwareNetworkFamily,
}

impl HubPropertyRef {
    /// The byte that stands for this value on the wire.
    pub open spec fn spec_code(self) -> u8 {
        match self {
            HubPropertyRef::AdvertisingName => 0x01,
            HubPropertyRef::Button => 0x02,
            HubPropertyRef::FwVersion => 0x03,
            HubPropertyRef::HwVersion => 0x04,
            HubPropertyRef::Rssi => 0x05,
            HubPropertyRef::BatteryVoltage => 0x06,
            HubPropertyRef::BatteryType => 0x07,
            HubPropertyRef::ManufacturerName => 0x08,
            HubPropertyRef::RadioFirmwareVersion => 0x09,
            HubPropertyRef::LegoWirelessProtocolVersion => 0x0A,
            HubPropertyRef::SystemTypeId => 0x0B,
            HubPropertyRef::HwNetworkId => 0x0C,
            HubPropertyRef::PrimaryMacAddress => 0x0D,
            HubPropertyRef::SecondaryMacAddress => 0x0E,
            HubPropertyRef::HardwareNetworkFamily => 0x0F,
        }
    }

    /// `b` stands for some value of this type.
    pub open spec fn is_code(b: u8) -> bool {
        0x01 <= b <= 0x0F
    }

    pub fn code(&self) -> (r: u8)
        ensures
            r == self.spec_code(),
    {
        match self {
            HubPropertyRef::AdvertisingName => 0x01,
            HubPropertyRef::Button => 0x02,
            HubPropertyRef::FwVersion => 0x03,
            HubPropertyRef::HwVersion => 0x04,
            HubPropertyRef::Rssi => 0x05,
            HubPropertyRef::BatteryVoltage => 0x06,
            HubPropertyRef::BatteryType => 0x07,
            HubPropertyRef::ManufacturerName => 0x08,
            HubPropertyRef::RadioFirmwareVersion => 0x09,
            HubPropertyRef::LegoWirelessProtocolVersion => 0x0A,
            HubPropertyRef::SystemTypeId => 0x0B,
            HubPropertyRef::HwNetworkId => 0x0C,
            HubPropertyRef::PrimaryMacAddress => 0x0D,
            HubPropertyRef::SecondaryMacAddress => 0x0E,
            HubPropertyRef::HardwareNetworkFamily => 0x0F,
        }
    }

    pub fn from_code(b: u8) -> (r: Option<Self>)
        ensures
            r is Some <==> Self::is_code(b),
            r matches Some(x) ==> x.spec_code() == b,
    {
        match b {
            0x01 => Some(HubPropertyRef::AdvertisingName),
            0x02 => Some(HubPropertyRef::Button),
            0x03 => Some(HubPropertyRef::FwVersion),
            0x04 => Some(HubPropertyRef::HwVersion),
            0x05 => Some(HubPropertyRef::Rssi),
            0x06 => Some(HubPropertyRef::BatteryVoltage),
            0x07 => Some(HubPropertyRef::BatteryType),
            0x08 => Some(HubPropertyRef::ManufacturerName),
            0x09 => Some(HubPropertyRef::RadioFirmwareVersion),
            0x0A => Some(HubPropertyRef::LegoWirelessProtocolVersion),
            0x0B => Some(HubPropertyRef::SystemTypeId),
            0x0C => Some(HubPropertyRef::HwNetworkId),
            0x0D => Some(HubPropertyRef::PrimaryMacAddress),
            0x0E => Some(HubPropertyRef::SecondaryMacAddress),
            0x0F => Some(HubPropertyRef::HardwareNetworkFamily),
            _ => None,
        }
    }
}

/// What a property message asks for or reports.
#[derive(Debug, Clone, Copy, PartialEq, Eq, Structural)]
pub enum HubPropertyOperation {
    SetValue,
    EnableUpdates,
    DisableUpdates,
    Reset,
    RequestUpdate,
    /// A report from the hub.
    Update,
}

impl HubPropertyOperation {
    /// The byte that stands for this value on the wire.
    pub open spec fn spec_code(self) -> u8 {
        match self {
            HubPropertyOperation::SetValue => 0x01,
            HubPropertyOperation::EnableUpdates => 0x02,
            HubPropertyOperation::DisableUpdates => 0x03,
            HubPropertyOperation::Reset => 0x04,
            HubPropertyOperation::RequestUpdate => 0x05,
            HubPropertyOperation::Update => 0x06,
        }
    }

    /// `b` stands for some value of this type.
    pub open spec fn is_code(b: u8) -> bool {
        0x01 <= b <= 0x06
    }

    pub fn code(&self) -> (r: u8)
        ensures
            r == self.spec_code(),
    {
        match self {
            HubPropertyOperation::SetValue => 0x01,
            HubPropertyOperation::EnableUpdates => 0x02,
            HubPropertyOperation::DisableUpdates => 0x03,
            HubPropertyOperation::Reset => 0x04,
            HubPropertyOperation::RequestUpdate => 0x05,
            HubPropertyOperation::Update => 0x06,
        }
    }

    pub fn from_code(b: u8) -> (r: Option<Self>)
        ensures
            r is Some <==> Self::is_code(b),
            r matches Some(x) ==> x.spec_code() == b,
    {
        match b {
            0x01 => Some(HubPropertyOperation::SetValue),
            0x02 => Some(HubPropertyOperation::EnableUpdates),
            0x03 => Some(HubPropertyOperation::DisableUpdates),
            0x04 => Some(HubPropertyOperation::Reset),
            0x05 => Some(HubPropertyOperation::RequestUpdate),
            0x06 => Some(HubPropertyOperation::Update),
            _ => None,
        }
    }
}

/// A hub action, requested by the client or announced by the hub.
#[derive(Debug, Clone, Copy, PartialEq, Eq, Structural)]
pub enum HubAction {
    SwitchOffHub,
    Disconnect,
    VccPortControlOn,
    VccPortControlOff,
    ActivateBusyIndication,
    ResetBusyIndication,
    Shutdown,
    HubWillSwitchOff,
    HubWillDisconnect,
    HubWillGoIntoBootMode,
}

impl HubAction {
    /// The byte that stands for this value on the wire.
    pub open spec fn spec_code(self) -> u8 {
        match self {
            HubAction::SwitchOffHub => 0x01,
            HubAction::Disconnect => 0x02,
            HubAction::VccPortControlOn => 0x03,
            HubAction::VccPortControlOff => 0x04,
            HubAction::ActivateBusyIndication => 0x05,
            HubAction::ResetBusyIndication => 0x06,
            HubAction::Shutdown => 0x2F,
            HubAction::HubWillSwitchOff => 0x30,
            HubAction::HubWillDisconnect => 0x31,
            HubAction::HubWillGoIntoBootMode => 0x32,
        }
    }

    /// `b` stands for some value of this type.
    pub open spec fn is_code(b: u8) -> bool {
        (0x01 <= b <= 0x06) || (0x2F <= b <= 0x32)
    }

    pub fn code(&self) -> (r: u8)
        ensures
            r == self.spec_code(),
    {
        match self {
            HubAction::SwitchOffHub => 0x01,
            HubAction::Disconnect => 0x02,
            HubAction::VccPortControlOn => 0x03,
            HubAction::VccPortControlOff => 0x04,
            HubAction::ActivateBusyIndication => 0x05,
            HubAction::ResetBusyIndication => 0x06,
            HubAction::Shutdown => 0x2F,
            HubAction::HubWillSwitchOff => 0x30,
            HubAction::HubWillDisconnect => 0x31,
            HubAction::HubWillGoIntoBootMode => 0x32,
        }
    }

    pub fn from_code(b: u8) -> (r: Option<Self>)
        ensures
            r is Some <==> Self::is_code(b),
            r matches Some(x) ==> x.spec_code() == b,
    {
        match b {
            0x01 => Some(HubAction::SwitchOffHub),
            0x02 => Some(HubAction::Disconnect),
            0x03 => Some(HubAction::VccPortControlOn),
            0x04 => Some(HubAction::VccPortControlOff),
            0x05 => Some(HubAction::ActivateBusyIndication),
            0x06 => Some(HubAction::ResetBusyIndication),
            0x2F => Some(HubAction::Shutdown),
            0x30 => Some(HubAction::HubWillSwitchOff),
            0x31 => Some(HubAction::HubWillDisconnect),
            0x32 => Some(HubAction::HubWillGoIntoBootMode),
            _ => None,
        }
    }
}

/// The condition that a hub alert watches.
#[derive(Debug, Clone, Copy, PartialEq, Eq, Structural)]
pub enum AlertType {
    LowVoltage,
    HighCurrent,
    LowSignalStrength,
    OverPowerCondition,
}

impl AlertType {
    /// The byte that stands for this value on the wire.
    pub open spec fn spec_code(self) -> u8 {
        match self {
            AlertType::LowVoltage => 0x01,
            AlertType::HighCurrent => 0x02,
            AlertType::LowSignalStrength => 0x03,
            AlertType::OverPowerCondition => 0x04,
        }
    }

    /// `b` stands for some value of this type.
    pub open spec fn is_code(b: u8) -> bool {
        0x01 <= b <= 0x04
    }

    pub fn code(&self) -> (r: u8)
        ensures
            r == self.spec_code(),
    {
        match self {
            AlertType::LowVoltage => 0x01,
            AlertType::HighCurrent => 0x02,
            AlertType::LowSignalStrength => 0x03,
            AlertType::OverPowerCondition => 0x04,
        }
    }

    pub fn from_code(b: u8) -> (r: Option<Self>)
        ensures
            r is Some <==> Self::is_code(b),
            r matches Some(x) ==> x.spec_code() == b,
    {
        match b {
            0x01 => Some(AlertType::LowVoltage),
            0x02 => Some(AlertType::HighCurrent),
            0x03 => Some(AlertType::LowSignalStrength),
            0x04 => Some(AlertType::OverPowerCondition),
            _ => None,
        }
    }
}

/// What an alert message asks for or reports.
#[derive(Debug, Clone, Copy, PartialEq, Eq, Structural)]
pub enum AlertOperation {
    EnableUpdates,
    DisableUpdates,
    RequestUpdate,
    /// A report from the hub: the only operation that carries a payload.
    Update,
}

impl AlertOperation {
    /// The byte that stands for this value on the wire.
    pub open spec fn spec_code(self) -> u8 {
        match self {
            AlertOperation::EnableUpdates => 0x01,
            AlertOperation::DisableUpdates => 0x02,
            AlertOperation::RequestUpdate => 0x03,
            AlertOperation::Update => 0x04,
        }
    }

    /// `b` stands for some value of this type.
    pub open spec fn is_code(b: u8) -> bool {
        0x01 <= b <= 0x04
    }

    pub fn code(&self) -> (r: u8)
        ensures
            r == self.spec_code(),
    {
        match self {
            AlertOperation::EnableUpdates => 0x01,
            AlertOperation::DisableUpdates => 0x02,
            AlertOperation::RequestUpdate => 0x03,
            AlertOperation::Update => 0x04,
        }
    }

    pub fn from_code(b: u8) -> (r: Option<Self>)
        ensures
            r is Some <==> Self::is_code(b),
            r matches Some(x) ==> x.spec_code() == b,
    {
        match b {
            0x01 => Some(AlertOperation::EnableUpdates),
            0x02 => Some(AlertOperation::DisableUpdates),
            0x03 => Some(AlertOperation::RequestUpdate),
            0x04 => Some(AlertOperation::Update),
            _ => None,
        }
    }
}

/// The state that an alert update reports.
#[derive(Debug, Clone, Copy, PartialEq, Eq, Structural)]
pub enum AlertPayload {
    StatusOk,
    Alert,
}

impl AlertPayload {
    /// The byte that stands for this value on the wire.
    pub open spec fn spec_code(self) -> u8 {
        match self {
            AlertPayload::StatusOk => 0x00,
            AlertPayload::Alert => 0xFF,
        }
    }

    /// `b` stands for some value of this type.
    pub open spec fn is_code(b: u8) -> bool {
        b == 0x00 || b == 0xFF
    }

    pub fn code(&self) -> (r: u8)
        ensures
            r == self.spec_code(),
    {
        match self {
            AlertPayload::StatusOk => 0x00,
            AlertPayload::Alert => 0xFF,
        }
    }

    pub fn from_code(b: u8) -> (r: Option<Self>)
        ensures
            r is Some <==> Self::is_code(b),
            r matches Some(x) ==> x.spec_code() == b,
    {
        match b {
            0x00 => Some(AlertPayload::StatusOk),
            0xFF => Some(AlertPayload::Alert),
            _ => None,
        }
    }
}

/// The kind of a generic error notice.
#[derive(Debug, Clone, Copy, PartialEq, Eq, Structural)]
pub enum ErrorCode {
    Ack,
    Mack,
    BufferOverflow,
    Timeout,
    CommandNotRecognized,
    InvalidUse,
    Overcurrent,
    InternalError,
}

impl ErrorCode {
    /// The byte that stands for this value on the wire.
    pub open spec fn spec_code(self) -> u8 {
        match self {
            ErrorCode::Ack => 0x01,
            ErrorCode::Mack => 0x02,
            ErrorCode::BufferOverflow => 0x03,
            ErrorCode::Timeout => 0x04,
            ErrorCode::CommandNotRecognized => 0x05,
            ErrorCode::InvalidUse => 0x06,
            ErrorCode::Overcurrent => 0x07,
            ErrorCode::InternalError => 0x08,
        }
    }

    /// `b` stands for some value of this type.
    pub open spec fn is_code(b: u8) -> bool {
        0x01 <= b <= 0x08
    }

    pub fn code(&self) -> (r: u8)
        ensures
            r == self.spec_code(),
    {
        match self {
            ErrorCode::Ack => 0x01,
            ErrorCode::Mack => 0x02,
            ErrorCode::BufferOverflow => 0x03,
            ErrorCode::Timeout => 0x04,
            ErrorCode::CommandNotRecognized => 0x05,
            ErrorCode::InvalidUse => 0x06,
            ErrorCode::Overcurrent => 0x07,
            ErrorCode::InternalError => 0x08,
        }
    }

    pub fn from_code(b: u8) -> (r: Option<Self>)
        ensures
            r is Some <==> Self::is_code(b),
            r matches Some(x) ==> x.spec_code() == b,
    {
        match b {
            0x01 => Some(ErrorCode::Ack),
            0x02 => Some(ErrorCode::Mack),
            0x03 => Some(ErrorCode::BufferOverflow),
            0x04 => Some(ErrorCode::Timeout),
            0x05 => Some(ErrorCode::CommandNotRecognized),
            0x06 => Some(ErrorCode::InvalidUse),
            0x07 => Some(ErrorCode::Overcurrent),
            0x08 => Some(ErrorCode::InternalError),
            _ => None,
        }
    }
}

/// What a port-information request asks for.
#[derive(Debug, Clone, Copy, PartialEq, Eq, Structural)]
pub enum InformationType {
    PortValue,
    /// Mode count, capabilities and input/output mode bitmasks.
    ModeInfo,
    PossibleModeCombinations,
}

impl InformationType {
    /// The byte that stands for this value on the wire.
    pub open spec fn spec_code(self) -> u8 {
        match self {
            InformationType::PortValue => 0x00,
            InformationType::ModeInfo => 0x01,
            InformationType::PossibleModeCombinations => 0x02,
        }
    }

    /// `b` stands for some value of this type.
    pub open spec fn is_code(b: u8) -> bool {
        b <= 0x02
    }

    pub fn code(&self) -> (r: u8)
        ensures
            r == self.spec_code(),
    {
        match self {
            InformationType::PortValue => 0x00,
            InformationType::ModeInfo => 0x01,
            InformationType::PossibleModeCombinations => 0x02,
        }
    }

    pub fn from_code(b: u8) -> (r: Option<Self>)
        ensures
            r is Some <==> Self::is_code(b),
            r matches Some(x) ==> x.spec_code() == b,
    {
        match b {
            0x00 => Some(InformationType::PortValue),
            0x01 => Some(InformationType::ModeInfo),
            0x02 => Some(InformationType::PossibleModeCombinations),
            _ => None,
        }
    }
}

/// Which piece of per-mode metadata a request asks for.
#[derive(Debug, Clone, Copy, PartialEq, Eq, Structural)]
pub enum ModeInformationType {
    Name,
    Raw,
    Pct,
    Si,
    Symbol,
    Mapping,
    InternalUse,
    MotorBias,
    CapabilityBits,
    ValueFormat,
}

impl ModeInformationType {
    /// The byte that stands for this value on the wire.
    pub open spec fn spec_code(self) -> u8 {
        match self {
            ModeInformationType::Name => 0x00,
            ModeInformationType::Raw => 0x01,
            ModeInformationType::Pct => 0x02,
            ModeInformationType::Si => 0x03,
            ModeInformationType::Symbol => 0x04,
            ModeInformationType::Mapping => 0x05,
            ModeInformationType::InternalUse => 0x06,
            ModeInformationType::MotorBias => 0x07,
            ModeInformationType::CapabilityBits => 0x08,
            ModeInformationType::ValueFormat => 0x80,
        }
    }

    /// `b` stands for some value of this type.
    pub open spec fn is_code(b: u8) -> bool {
        b <= 0x08 || b == 0x80
    }

    pub fn code(&self) -> (r: u8)
        ensures
            r == self.spec_code(),
    {
        match self {
            ModeInformationType::Name => 0x00,
            ModeInformationType::Raw => 0x01,
            ModeInformationType::Pct => 0x02,
            ModeInformationType::Si => 0x03,
            ModeInformationType::Symbol => 0x04,
            ModeInformationType::Mapping => 0x05,
            ModeInformationType::InternalUse => 0x06,
            ModeInformationType::MotorBias => 0x07,
            ModeInformationType::CapabilityBits => 0x08,
            ModeInformationType::ValueFormat => 0x80,
        }
    }

    pub fn from_code(b: u8) -> (r: Option<Self>)
        ensures
            r is Some <==> Self::is_code(b),
            r matches Some(x) ==> x.spec_code() == b,
    {
        match b {
            0x00 => Some(ModeInformationType::Name),
            0x01 => Some(ModeInformationType::Raw),
            0x02 => Some(ModeInformationType::Pct),
            0x03 => Some(ModeInformationType::Si),
            0x04 => Some(ModeInformationType::Symbol),
            0x05 => Some(ModeInformationType::Mapping),
            0x06 => Some(ModeInformationType::InternalUse),
            0x07 => Some(ModeInformationType::MotorBias),
            0x08 => Some(ModeInformationType::CapabilityBits),
            0x80 => Some(ModeInformationType::ValueFormat),
            _ => None,
        }
    }
}

/// The width and kind of each sample in a port value.
#[derive(Debug, Clone, Copy, PartialEq, Eq, Structural)]
pub enum DatasetType {
    /// 8-bit signed integers.
    Bits8,
    /// 16-bit signed integers.
    Bits16,
    /// 32-bit signed integers.
    Bits32,
    /// IEEE-754 single-precision floats.
    Float,
}

impl DatasetType {
    /// The byte that stands for this value on the wire.
    pub open spec fn spec_code(self) -> u8 {
        match self {
            DatasetType::Bits8 => 0x00,
            DatasetType::Bits16 => 0x01,
            DatasetType::Bits32 => 0x02,
            DatasetType::Float => 0x03,
        }
    }

    /// `b` stands for some value of this type.
    pub open spec fn is_code(b: u8) -> bool {
        b <= 0x03
    }

    pub fn code(&self) -> (r: u8)
        ensures
            r == self.spec_code(),
    {
        match self {
            DatasetType::Bits8 => 0x00,
            DatasetType::Bits16 => 0x01,
            DatasetType::Bits32 => 0x02,
            DatasetType::Float => 0x03,
        }
    }

    pub fn from_code(b: u8) -> (r: Option<Self>)
        ensures
            r is Some <==> Self::is_code(b),
            r matches Some(x) ==> x.spec_code() == b,
    {
        match b {
            0x00 => Some(DatasetType::Bits8),
            0x01 => Some(DatasetType::Bits16),
            0x02 => Some(DatasetType::Bits32),
            0x03 => Some(DatasetType::Float),
            _ => None,
        }
    }
}

/// When the hub starts an output command.
#[derive(Debug, Clone, Copy, PartialEq, Eq, Structural)]
pub enum StartupInfo {
    BufferIfNecessary,
    ExecuteImmediately,
}

impl StartupInfo {
    /// The byte that stands for this value on the wire.
    pub open spec fn spec_code(self) -> u8 {
        match self {
            StartupInfo::BufferIfNecessary => 0x00,
            StartupInfo::ExecuteImmediately => 0x01,
        }
    }

    /// `b` stands for some value of this type.
    pub open spec fn is_code(b: u8) -> bool {
        b <= 0x01
    }

    pub fn code(&self) -> (r: u8)
        ensures
            r == self.spec_code(),
    {
        match self {
            StartupInfo::BufferIfNecessary => 0x00,
            StartupInfo::ExecuteImmediately => 0x01,
        }
    }

    pub fn from_code(b: u8) -> (r: Option<Self>)
        ensures
            r is Some <==> Self::is_code(b),
            r matches Some(x) ==> x.spec_code() == b,
    {
        match b {
            0x00 => Some(StartupInfo::BufferIfNecessary),
            0x01 => Some(StartupInfo::ExecuteImmediately),
            _ => None,
        }
    }
}

/// What the hub does when an output command completes.
#[derive(Debug, Clone, Copy, PartialEq, Eq, Structural)]
pub enum CompletionInfo {
    NoAction,
    CommandFeedback,
}

impl CompletionInfo {
    /// The byte that stands for this value on the wire.
    pub open spec fn spec_code(self) -> u8 {
        match self {
            CompletionInfo::NoAction => 0x00,
            CompletionInfo::CommandFeedback => 0x01,
        }
    }

    /// `b` stands for some value of this type.
    pub open spec fn is_code(b: u8) -> bool {
        b <= 0x01
    }

    pub fn code(&self) -> (r: u8)
        ensures
            r == self.spec_code(),
    {
        match self {
            CompletionInfo::NoAction => 0x00,
            CompletionInfo::CommandFeedback => 0x01,
        }
    }

    pub fn from_code(b: u8) -> (r: Option<Self>)
        ensures
            r is Some <==> Self::is_code(b),
            r matches Some(x) ==> x.spec_code() == b,
    {
        match b {
            0x00 => Some(CompletionInfo::NoAction),
            0x01 => Some(CompletionInfo::CommandFeedback),
            _ => None,
        }
    }
}

/// What a motor does at the end of a bounded movement.
#[derive(Debug, Clone, Copy, PartialEq, Eq, Structural)]
pub enum EndState {
    Float,
    Hold,
    Brake,
}

impl EndState {
    /// The byte that stands for this value on the wire.
    pub open spec fn spec_code(self) -> u8 {
        match self {
            EndState::Float => 0x00,
            EndState::Hold => 0x7E,
            EndState::Brake => 0x7F,
        }
    }

    /// `b` stands for some value of this type.
    pub open spec fn is_code(b: u8) -> bool {
        b == 0x00 || b == 0x7E || b == 0x7F
    }

    pub fn code(&self) -> (r: u8)
        ensures
            r == self.spec_code(),
    {
        match self {
            EndState::Float => 0x00,
            EndState::Hold => 0x7E,
            EndState::Brake => 0x7F,
        }
    }

    pub fn from_code(b: u8) -> (r: Option<Self>)
        ensures
            r is Some <==> Self::is_code(b),
            r matches Some(x) ==> x.spec_code() == b,
    {
        match b {
            0x00 => Some(EndState::Float),
            0x7E => Some(EndState::Hold),
            0x7F => Some(EndState::Brake),
            _ => None,
        }
    }
}


} // verus!
