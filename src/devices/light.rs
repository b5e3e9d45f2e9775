//! Commands for hub LEDs.

use vstd::prelude::*;
use crate::consts::Color;
use crate::devices::{direct_mode_frame, port_mode_message, Device};
use crate::error::Error;

verus! {

/// How a hub LED takes its colour.
#[derive(Debug, Clone, Copy, PartialEq, Eq, Structural)]
pub enum HubLedMode {
    /// One of the named colours.
    Colour,
    /// Any RGB value.
    Rgb,
}

impl HubLedMode {
    pub open spec fn spec_code(self) -> u8 {
        match self {
            HubLedMode::Colour => 0x00,
            HubLedMode::Rgb => 0x01,
        }
    }

    pub fn code(&self) -> (r: u8)
        ensures
            r == self.spec_code(),
    {
        match self {
            HubLedMode::Colour => 0x00,
            HubLedMode::Rgb => 0x01,
        }
    }
}

impl Device {
    /// Puts a hub LED in a colour mode, with notifications on.
    pub fn set_hubled_mode(&self, link_open: bool, mode: HubLedMode) -> (r: Result<Vec<u8>, Error>)
        ensures
            !link_open ==> r == Err::<Vec<u8>, Error>(Error::Disconnected),
            link_open && !(self is HubLed) ==> r == Err::<Vec<u8>, Error>(Error::Unsupported),
            link_open && self is HubLed ==> (r matches Ok(f) && f@ == port_mode_message(
                self.spec_port(),
                mode.spec_code(),
                1,
                true,
            ).spec_encode()),
    {
        if !link_open {
            return Err(Error::Disconnected);
        }
        match self {
            Device::HubLed(_) => self.set_port_mode(true, mode.code(), 1, true),
            _ => Err(Error::Unsupported),
        }
    }

    /// Sets a hub LED to an RGB value; the LED must be in `Rgb` mode.
    pub fn set_hubled_rgb(&self, link_open: bool, rgb: &[u8; 3]) -> (r: Result<Vec<u8>, Error>)
        ensures
            !link_open ==> r == Err::<Vec<u8>, Error>(Error::Disconnected),
            link_open && !(self is HubLed) ==> r == Err::<Vec<u8>, Error>(Error::Unsupported),
            link_open && self is HubLed ==> (r matches Ok(f) && f@ == direct_mode_frame(
                self.spec_port(),
                0x01,
                rgb@,
            )),
    {
        if !link_open {
            return Err(Error::Disconnected);
        }
        match self {
            Device::HubLed(l) => {
                let data = vec![rgb[0], rgb[1], rgb[2]];
                assert(data@ =~= rgb@);
                Ok(crate::devices::direct_mode_data(l.port_id, 0x01, data))
            },
            _ => Err(Error::Unsupported),
        }
    }

    /// Sets a hub LED to a named colour; the LED must be in `Colour` mode.
    pub fn set_hubled_color(&self, link_open: bool, color: Color) -> (r: Result<Vec<u8>, Error>)
        ensures
            !link_open ==> r == Err::<Vec<u8>, Error>(Error::Disconnected),
            link_open && !(self is HubLed) ==> r == Err::<Vec<u8>, Error>(Error::Unsupported),
            link_open && self is HubLed ==> (r matches Ok(f) && f@ == direct_mode_frame(
                self.spec_port(),
                0x00,
                seq![color.spec_code()],
            )),
    {
        if !link_open {
            return Err(Error::Disconnected);
        }
        match self {
            Device::HubLed(l) => Ok(
                crate::devices::direct_mode_data(l.port_id, 0x00, vec![color.code()]),
            ),
            _ => Err(Error::Unsupported),
        }
    }
}

} // verus!
