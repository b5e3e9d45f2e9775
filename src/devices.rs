//! The command surface: cheap handles bound to one port, which turn commands into frames.
//!
//! A handle knows the kind of its device; a command that the kind does not implement fails
//! with `Unsupported`, and every command fails with `Disconnected` once the link is gone. The
//! caller writes the frame that a command returns to the transport.

use vstd::prelude::*;
use crate::codes::{CompletionInfo, EndState, StartupInfo};
use crate::consts::IoTypeId;
use crate::error::Error;
use crate::hubs::HubSession;
use crate::notifications::{
    InputSetupSingle, NotificationMessage, PortOutputCommandFormat, PortOutputSubcommand,
};
use crate::wire::{frame, i8_byte, to_byte_i8};

pub mod light;

verus! {

/// Power for a motor: clockwise or counter-clockwise in percent (at most 100), floating
/// or braking.
#[derive(Debug, Clone, Copy, PartialEq, Eq, Structural)]
pub enum Power {
    Cw(u8),
    Ccw(u8),
    Float,
    Brake,
}

pub open spec fn power_level(p: u8) -> u8 {
    if p > 100 { 100 } else { p }
}

impl Power {
    /// The signed byte that stands for this power: the level, negated counter-clockwise,
    /// 0 to float and 127 to brake. Levels above 100 count as 100.
    pub open spec fn spec_value(self) -> i8 {
        match self {
            Power::Cw(p) => power_level(p) as i8,
            Power::Ccw(p) => (-(power_level(p) as int)) as i8,
            Power::Float => 0,
            Power::Brake => 127,
        }
    }

    pub fn value(&self) -> (r: i8)
        ensures
            r == self.spec_value(),
    {
        match self {
            Power::Cw(p) => if *p > 100 { 100 } else { *p as i8 },
            Power::Ccw(p) => if *p > 100 { -100 } else { -(*p as i8) },
            Power::Float => 0,
            Power::Brake => 127,
        }
    }
}

/// A hub LED.
#[derive(Debug, Clone, Copy, PartialEq, Eq, Structural)]
pub struct HubLED {
    pub port_id: u8,
}

/// A motor.
#[derive(Debug, Clone, Copy, PartialEq, Eq, Structural)]
pub struct Motor {
    pub kind: IoTypeId,
    pub port_id: u8,
}

/// A handle on the device of one port, by kind.
#[derive(Debug, Clone, Copy, PartialEq, Eq, Structural)]
pub enum Device {
    HubLed(HubLED),
    Motor(Motor),
    /// A device with only the generic port operations.
    Other { kind: IoTypeId, port_id: u8 },
}

/// An output command that starts at once and asks for no feedback.
pub open spec fn output_command(port: u8, subcommand: PortOutputSubcommand) -> NotificationMessage {
    NotificationMessage::PortOutputCommand(
        PortOutputCommandFormat {
            port_id: port,
            startup_info: StartupInfo::ExecuteImmediately,
            completion_info: CompletionInfo::NoAction,
            subcommand,
        },
    )
}

/// The frame of an output command that writes `data` to `mode` of the device on `port`.
pub open spec fn direct_mode_frame(port: u8, mode: u8, data: Seq<u8>) -> Seq<u8> {
    frame(0x81, seq![port, 0x10u8, 0x51u8, mode] + data)
}

pub open spec fn start_speed_message(port: u8, speed: i8, max_power: u8) -> NotificationMessage {
    output_command(
        port,
        PortOutputSubcommand::StartSpeed {
            speed,
            max_power,
            use_acc_profile: true,
            use_dec_profile: true,
        },
    )
}

pub open spec fn goto_position_message(
    port: u8,
    abs_pos: i32,
    speed: i8,
    max_power: u8,
    end_state: EndState,
) -> NotificationMessage {
    output_command(
        port,
        PortOutputSubcommand::GotoAbsolutePosition {
            abs_pos,
            speed,
            max_power,
            end_state,
            use_acc_profile: true,
            use_dec_profile: true,
        },
    )
}

pub open spec fn port_mode_message(port: u8, mode: u8, delta: u32, notify: bool) -> NotificationMessage {
    NotificationMessage::PortInputFormatSetupSingle(
        InputSetupSingle { port_id: port, mode, delta, notification_enabled: notify },
    )
}

pub(crate) fn direct_mode_data(port: u8, mode: u8, data: Vec<u8>) -> (r: Vec<u8>)
    requires
        data@.len() <= 16,
    ensures
        r@ == direct_mode_frame(port, mode, data@),
{
    let m = NotificationMessage::PortOutputCommand(
        PortOutputCommandFormat {
            port_id: port,
            startup_info: StartupInfo::ExecuteImmediately,
            completion_info: CompletionInfo::NoAction,
            subcommand: PortOutputSubcommand::WriteDirectModeData { mode, payload: data },
        },
    );
    let r = m.encode();
    assert(m.payload_bytes() =~= seq![port, 0x10u8, 0x51u8, mode] + data@);
    r
}

impl Device {
    /// The handle for a device of kind `kind` on `port`: the hub LED and motors get their own
    /// variants, every other kind only the generic port operations.
    pub open spec fn spec_new(kind: IoTypeId, port: u8) -> Device {
        if kind == IoTypeId::HubLed {
            Device::HubLed(HubLED { port_id: port })
        } else if kind.spec_is_motor() {
            Device::Motor(Motor { kind, port_id: port })
        } else {
            Device::Other { kind, port_id: port }
        }
    }

    pub fn new(kind: IoTypeId, port: u8) -> (r: Device)
        ensures
            r == Device::spec_new(kind, port),
            r.spec_port() == port,
            r.spec_kind() == kind,
    {
        if kind == IoTypeId::HubLed {
            Device::HubLed(HubLED { port_id: port })
        } else if kind.is_motor() {
            Device::Motor(Motor { kind, port_id: port })
        } else {
            Device::Other { kind, port_id: port }
        }
    }

    pub open spec fn spec_port(self) -> u8 {
        match self {
            Device::HubLed(l) => l.port_id,
            Device::Motor(m) => m.port_id,
            Device::Other { port_id, .. } => port_id,
        }
    }

    pub open spec fn spec_kind(self) -> IoTypeId {
        match self {
            Device::HubLed(_) => IoTypeId::HubLed,
            Device::Motor(m) => m.kind,
            Device::Other { kind, .. } => kind,
        }
    }

    pub fn port(&self) -> (r: u8)
        ensures
            r == self.spec_port(),
    {
        match self {
            Device::HubLed(l) => l.port_id,
            Device::Motor(m) => m.port_id,
            Device::Other { port_id, .. } => *port_id,
        }
    }

    pub fn kind(&self) -> (r: IoTypeId)
        ensures
            r == self.spec_kind(),
    {
        match self {
            Device::HubLed(_) => IoTypeId::HubLed,
            Device::Motor(m) => m.kind,
            Device::Other { kind, .. } => *kind,
        }
    }

    /// Sets up the input mode of the port: any device.
    pub fn set_port_mode(&self, link_open: bool, mode: u8, delta: u32, notify: bool) -> (r: Result<
        Vec<u8>,
        Error,
    >)
        ensures
            !link_open ==> r == Err::<Vec<u8>, Error>(Error::Disconnected),
            link_open ==> (r matches Ok(f) && f@ == port_mode_message(
                self.spec_port(),
                mode,
                delta,
                notify,
            ).spec_encode()),
    {
        if !link_open {
            return Err(Error::Disconnected);
        }
        let m = NotificationMessage::PortInputFormatSetupSingle(
            InputSetupSingle { port_id: self.port(), mode, delta, notification_enabled: notify },
        );
        Ok(m.encode())
    }

    /// Runs a motor at `speed` percent (negative counter-clockwise), with `max_power` percent.
    pub fn start_speed(&self, link_open: bool, speed: i8, max_power: u8) -> (r: Result<
        Vec<u8>,
        Error,
    >)
        ensures
            !link_open ==> r == Err::<Vec<u8>, Error>(Error::Disconnected),
            link_open && !(self is Motor) ==> r == Err::<Vec<u8>, Error>(Error::Unsupported),
            link_open && self is Motor ==> (r matches Ok(f) && f@ == start_speed_message(
                self.spec_port(),
                speed,
                max_power,
            ).spec_encode()),
    {
        if !link_open {
            return Err(Error::Disconnected);
        }
        match self {
            Device::Motor(m) => {
                let msg = NotificationMessage::PortOutputCommand(
                    PortOutputCommandFormat {
                        port_id: m.port_id,
                        startup_info: StartupInfo::ExecuteImmediately,
                        completion_info: CompletionInfo::NoAction,
                        subcommand: PortOutputSubcommand::StartSpeed {
                            speed,
                            max_power,
                            use_acc_profile: true,
                            use_dec_profile: true,
                        },
                    },
                );
                Ok(msg.encode())
            },
            _ => Err(Error::Unsupported),
        }
    }

    /// Drives a motor at a fixed power, or lets it float or brake.
    pub fn start_power(&self, link_open: bool, power: Power) -> (r: Result<Vec<u8>, Error>)
        ensures
            !link_open ==> r == Err::<Vec<u8>, Error>(Error::Disconnected),
            link_open && !(self is Motor) ==> r == Err::<Vec<u8>, Error>(Error::Unsupported),
            link_open && self is Motor ==> (r matches Ok(f) && f@ == direct_mode_frame(
                self.spec_port(),
                0x00,
                seq![i8_byte(power.spec_value())],
            )),
    {
        if !link_open {
            return Err(Error::Disconnected);
        }
        match self {
            Device::Motor(m) => Ok(direct_mode_data(m.port_id, 0x00, vec![to_byte_i8(power.value())])),
            _ => Err(Error::Unsupported),
        }
    }

    /// Turns a motor to an absolute position, in degrees.
    pub fn goto_absolute_position(
        &self,
        link_open: bool,
        abs_pos: i32,
        speed: i8,
        max_power: u8,
        end_state: EndState,
    ) -> (r: Result<Vec<u8>, Error>)
        ensures
            !link_open ==> r == Err::<Vec<u8>, Error>(Error::Disconnected),
            link_open && !(self is Motor) ==> r == Err::<Vec<u8>, Error>(Error::Unsupported),
            link_open && self is Motor ==> (r matches Ok(f) && f@ == goto_position_message(
                self.spec_port(),
                abs_pos,
                speed,
                max_power,
                end_state,
            ).spec_encode()),
    {
        if !link_open {
            return Err(Error::Disconnected);
        }
        match self {
            Device::Motor(m) => {
                let msg = NotificationMessage::PortOutputCommand(
                    PortOutputCommandFormat {
                        port_id: m.port_id,
                        startup_info: StartupInfo::ExecuteImmediately,
                        completion_info: CompletionInfo::NoAction,
                        subcommand: PortOutputSubcommand::GotoAbsolutePosition {
                            abs_pos,
                            speed,
                            max_power,
                            end_state,
                            use_acc_profile: true,
                            use_dec_profile: true,
                        },
                    },
                );
                Ok(msg.encode())
            },
            _ => Err(Error::Unsupported),
        }
    }
}

impl HubSession {
    /// The handle on the device of `port`.
    pub fn device(&self, port: u8) -> (r: Result<Device, Error>)
        ensures
            r is Ok <==> self@.io.contains_key(port),
            r matches Ok(d) ==> d == Device::spec_new(self@.io[port].kind, port),
            r matches Err(e) ==> e == Error::NotFound,
    {
        match self.io_from_port(port) {
            Ok(rec) => Ok(Device::new(rec.kind, port)),
            Err(e) => Err(e),
        }
    }
}

} // verus!
