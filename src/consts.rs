//! Device kinds, hub kinds and other fixed values of the protocol.

use vstd::prelude::*;

verus! {

/// The ports of a four-port hub, and the port of the hub LED.
pub const PORT_A: u8 = 0x00;
pub const PORT_B: u8 = 0x01;
pub const PORT_C: u8 = 0x02;
pub const PORT_D: u8 = 0x03;
pub const PORT_HUB_LED: u8 = 0x32;

/// The company id under which hubs advertise their manufacturer data.
pub const LEGO_COMPANY_ID: u16 = 919;

/// The service that a WeDo 2.0 hub advertises.
pub const WEDO2_SMART_HUB_SERVICE: u128 = 0x00001523_1212_efde_1523_785feabcd123;

/// The service that every other hub of the protocol advertises.
pub const LPF2_HUB_SERVICE: u128 = 0x00001623_1212_efde_1623_785feabcd123;

/// The kind of a hub.
#[derive(Debug, Clone, Copy, PartialEq, Eq, Structural)]
pub enum HubType {
    Unknown,
    Wedo2SmartHub,
    MoveHub,
    Hub,
    DuploTrainBase,
    RemoteControl,
    Mario,
    TechnicMediumHub,
}

/// The kind of device attached to a port.
#[derive(Debug, Clone, Copy, PartialEq, Eq, Structural)]
pub enum IoTypeId {
    Motor,
    SystemTrainMotor,
    Button,
    LedLight,
    Voltage,
    Current,
    PiezoToneSound,
    HubLed,
    TiltSensor,
    MotionSensor,
    VisionSensor,
    ExternalMotorWithTacho,
    InternalMotorWithTacho,
    InternalTilt,
    DuploTrainMotor,
    DuploTrainSpeaker,
    DuploTrainColor,
    DuploTrainSpeedometer,
    TechnicLargeLinearMotor,
    TechnicXLargeLinearMotor,
    TechnicMediumAngularMotor,
    TechnicLargeAngularMotor,
    TechnicHubGestSensor,
    RemoteControlButton,
    RemoteControlRssi,
    TechnicHubAccelerometer,
    TechnicHubGyroSensor,
    TechnicHubTiltSensor,
    TechnicHubTemperatureSensor,
    TechnicColorSensor,
    TechnicDistanceSensor,
    TechnicForceSensor,
    TechnicSmallAngularMotor,
    /// A kind that this library does not know by name.
    Unknown,
}

/// The kind that a 16-bit device-kind tag stands for.
pub open spec fn io_type_of(code: u16) -> IoTypeId {
    if code == 0x0001 {
        IoTypeId::Motor
    } else if code == 0x0002 {
        IoTypeId::SystemTrainMotor
    } else if code == 0x0005 {
        IoTypeId::Button
    } else if code == 0x0008 {
        IoTypeId::LedLight
    } else if code == 0x0014 {
        IoTypeId::Voltage
    } else if code == 0x0015 {
        IoTypeId::Current
    } else if code == 0x0016 {
        IoTypeId::PiezoToneSound
    } else if code == 0x0017 {
        IoTypeId::HubLed
    } else if code == 0x0022 {
        IoTypeId::TiltSensor
    } else if code == 0x0023 {
        IoTypeId::MotionSensor
    } else if code == 0x0025 {
        IoTypeId::VisionSensor
    } else if code == 0x0026 {
        IoTypeId::ExternalMotorWithTacho
    } else if code == 0x0027 {
        IoTypeId::InternalMotorWithTacho
    } else if code == 0x0028 {
        IoTypeId::InternalTilt
    } else if code == 0x0029 {
        IoTypeId::DuploTrainMotor
    } else if code == 0x002A {
        IoTypeId::DuploTrainSpeaker
    } else if code == 0x002B {
        IoTypeId::DuploTrainColor
    } else if code == 0x002C {
        IoTypeId::DuploTrainSpeedometer
    } else if code == 0x002E {
        IoTypeId::TechnicLargeLinearMotor
    } else if code == 0x002F {
        IoTypeId::TechnicXLargeLinearMotor
    } else if code == 0x0030 {
        IoTypeId::TechnicMediumAngularMotor
    } else if code == 0x0031 {
        IoTypeId::TechnicLargeAngularMotor
    } else if code == 0x0036 {
        IoTypeId::TechnicHubGestSensor
    } else if code == 0x0037 {
        IoTypeId::RemoteControlButton
    } else if code == 0x0038 {
        IoTypeId::RemoteControlRssi
    } else if code == 0x0039 {
        IoTypeId::TechnicHubAccelerometer
    } else if code == 0x003A {
        IoTypeId::TechnicHubGyroSensor
    } else if code == 0x003B {
        IoTypeId::TechnicHubTiltSensor
    } else if code == 0x003C {
        IoTypeId::TechnicHubTemperatureSensor
    } else if code == 0x003D {
        IoTypeId::TechnicColorSensor
    } else if code == 0x003E {
        IoTypeId::TechnicDistanceSensor
    } else if code == 0x003F {
        IoTypeId::TechnicForceSensor
    } else if code == 0x0041 {
        IoTypeId::TechnicSmallAngularMotor
    } else {
        IoTypeId::Unknown
    }
}

impl IoTypeId {
    pub fn from_code(code: u16) -> (r: IoTypeId)
        ensures
            r == io_type_of(code),
    {
        match code {
            0x0001 => IoTypeId::Motor,
            0x0002 => IoTypeId::SystemTrainMotor,
            0x0005 => IoTypeId::Button,
            0x0008 => IoTypeId::LedLight,
            0x0014 => IoTypeId::Voltage,
            0x0015 => IoTypeId::Current,
            0x0016 => IoTypeId::PiezoToneSound,
            0x0017 => IoTypeId::HubLed,
            0x0022 => IoTypeId::TiltSensor,
            0x0023 => IoTypeId::MotionSensor,
            0x0025 => IoTypeId::VisionSensor,
            0x0026 => IoTypeId::ExternalMotorWithTacho,
            0x0027 => IoTypeId::InternalMotorWithTacho,
            0x0028 => IoTypeId::InternalTilt,
            0x0029 => IoTypeId::DuploTrainMotor,
            0x002A => IoTypeId::DuploTrainSpeaker,
            0x002B => IoTypeId::DuploTrainColor,
            0x002C => IoTypeId::DuploTrainSpeedometer,
            0x002E => IoTypeId::TechnicLargeLinearMotor,
            0x002F => IoTypeId::TechnicXLargeLinearMotor,
            0x0030 => IoTypeId::TechnicMediumAngularMotor,
            0x0031 => IoTypeId::TechnicLargeAngularMotor,
            0x0036 => IoTypeId::TechnicHubGestSensor,
            0x0037 => IoTypeId::RemoteControlButton,
            0x0038 => IoTypeId::RemoteControlRssi,
            0x0039 => IoTypeId::TechnicHubAccelerometer,
            0x003A => IoTypeId::TechnicHubGyroSensor,
            0x003B => IoTypeId::TechnicHubTiltSensor,
            0x003C => IoTypeId::TechnicHubTemperatureSensor,
            0x003D => IoTypeId::TechnicColorSensor,
            0x003E => IoTypeId::TechnicDistanceSensor,
            0x003F => IoTypeId::TechnicForceSensor,
            0x0041 => IoTypeId::TechnicSmallAngularMotor,
            _ => IoTypeId::Unknown,
        }
    }

    /// The kind is a motor, which takes speed and position commands.
    pub open spec fn spec_is_motor(self) -> bool {
        ||| self == IoTypeId::Motor
        ||| self == IoTypeId::SystemTrainMotor
        ||| self == IoTypeId::ExternalMotorWithTacho
        ||| self == IoTypeId::InternalMotorWithTacho
        ||| self == IoTypeId::DuploTrainMotor
        ||| self == IoTypeId::TechnicLargeLinearMotor
        ||| self == IoTypeId::TechnicXLargeLinearMotor
        ||| self == IoTypeId::TechnicMediumAngularMotor
        ||| self == IoTypeId::TechnicLargeAngularMotor
        ||| self == IoTypeId::TechnicSmallAngularMotor
    }

    pub fn is_motor(&self) -> (r: bool)
        ensures
            r == self.spec_is_motor(),
    {
        match self {
            IoTypeId::Motor
            | IoTypeId::SystemTrainMotor
            | IoTypeId::ExternalMotorWithTacho
            | IoTypeId::InternalMotorWithTacho
            | IoTypeId::DuploTrainMotor
            | IoTypeId::TechnicLargeLinearMotor
            | IoTypeId::TechnicXLargeLinearMotor
            | IoTypeId::TechnicMediumAngularMotor
            | IoTypeId::TechnicLargeAngularMotor
            | IoTypeId::TechnicSmallAngularMotor => true,
            _ => false,
        }
    }
}

/// The hub kind that a hub advertises in the second byte of its manufacturer data.
#[derive(Debug, Clone, Copy, PartialEq, Eq, Structural)]
pub enum BLEManufacturerData {
    DuploTrainBaseId,
    MoveHubId,
    HubId,
    RemoteControlId,
    MarioId,
    TechnicMediumHubId,
}

impl BLEManufacturerData {
    /// The byte that stands for this value on the wire.
    pub open spec fn spec_code(self) -> u8 {
        match self {
            BLEManufacturerData::DuploTrainBaseId => 0x20,
            BLEManufacturerData::MoveHubId => 0x40,
            BLEManufacturerData::HubId => 0x41,
            BLEManufacturerData::RemoteControlId => 0x42,
            BLEManufacturerData::MarioId => 0x43,
            BLEManufacturerData::TechnicMediumHubId => 0x80,
        }
    }

    /// `b` stands for some value of this type.
    pub open spec fn is_code(b: u8) -> bool {
        b == 0x20 || (0x40 <= b <= 0x43) || b == 0x80
    }

    pub fn code(&self) -> (r: u8)
        ensures
            r == self.spec_code(),
    {
        match self {
            BLEManufacturerData::DuploTrainBaseId => 0x20,
            BLEManufacturerData::MoveHubId => 0x40,
            BLEManufacturerData::HubId => 0x41,
            BLEManufacturerData::RemoteControlId => 0x42,
            BLEManufacturerData::MarioId => 0x43,
            BLEManufacturerData::TechnicMediumHubId => 0x80,
        }
    }

    pub fn from_code(b: u8) -> (r: Option<Self>)
        ensures
            r is Some <==> Self::is_code(b),
            r matches Some(x) ==> x.spec_code() == b,
    {
        match b {
            0x20 => Some(BLEManufacturerData::DuploTrainBaseId),
            0x40 => Some(BLEManufacturerData::MoveHubId),
            0x41 => Some(BLEManufacturerData::HubId),
            0x42 => Some(BLEManufacturerData::RemoteControlId),
            0x43 => Some(BLEManufacturerData::MarioId),
            0x80 => Some(BLEManufacturerData::TechnicMediumHubId),
            _ => None,
        }
    }
}

/// The named colours of a hub LED.
#[derive(Debug, Clone, Copy, PartialEq, Eq, Structural)]
pub enum Color {
    Black,
    Pink,
    Purple,
    Blue,
    LightBlue,
    Cyan,
    Green,
    Yellow,
    Orange,
    Red,
    White,
}

impl Color {
    /// The byte that stands for this value on the wire.
    pub open spec fn spec_code(self) -> u8 {
        match self {
            Color::Black => 0x00,
            Color::Pink => 0x01,
            Color::Purple => 0x02,
            Color::Blue => 0x03,
            Color::LightBlue => 0x04,
            Color::Cyan => 0x05,
            Color::Green => 0x06,
            Color::Yellow => 0x07,
            Color::Orange => 0x08,
            Color::Red => 0x09,
            Color::White => 0x0A,
        }
    }

    /// `b` stands for some value of this type.
    pub open spec fn is_code(b: u8) -> bool {
        b <= 0x0A
    }

    pub fn code(&self) -> (r: u8)
        ensures
            r == self.spec_code(),
    {
        match self {
            Color::Black => 0x00,
            Color::Pink => 0x01,
            Color::Purple => 0x02,
            Color::Blue => 0x03,
            Color::LightBlue => 0x04,
            Color::Cyan => 0x05,
            Color::Green => 0x06,
            Color::Yellow => 0x07,
            Color::Orange => 0x08,
            Color::Red => 0x09,
            Color::White => 0x0A,
        }
    }

    pub fn from_code(b: u8) -> (r: Option<Self>)
        ensures
            r is Some <==> Self::is_code(b),
            r matches Some(x) ==> x.spec_code() == b,
    {
        match b {
            0x00 => Some(Color::Black),
            0x01 => Some(Color::Pink),
            0x02 => Some(Color::Purple),
            0x03 => Some(Color::Blue),
            0x04 => Some(Color::LightBlue),
            0x05 => Some(Color::Cyan),
            0x06 => Some(Color::Green),
            0x07 => Some(Color::Yellow),
            0x08 => Some(Color::Orange),
            0x09 => Some(Color::Red),
            0x0A => Some(Color::White),
            _ => None,
        }
    }
}


} // verus!
