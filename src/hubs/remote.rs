//! The remote control: a hub whose ports have fixed names.

use vstd::prelude::*;
use crate::consts::HubType;
use crate::devices::Device;
use crate::error::Error;
use crate::hubs::{HubProperties, HubSession};

verus! {

/// The named ports of the remote control.
#[derive(Debug, Clone, Copy, PartialEq, Eq, Structural)]
pub enum RemotePort {
    /// The left button cluster.
    A,
    /// The right button cluster.
    B,
    HubLed,
    VoltageSensor,
    Rssi,
}

impl RemotePort {
    /// The port id of a named port.
    pub open spec fn spec_id(self) -> u8 {
        match self {
            RemotePort::A => 0x00,
            RemotePort::B => 0x01,
            RemotePort::HubLed => 0x34,
            RemotePort::VoltageSensor => 0x3B,
            RemotePort::Rssi => 0x3C,
        }
    }

    pub fn id(&self) -> (r: u8)
        ensures
            r == self.spec_id(),
    {
        match self {
            RemotePort::A => 0x00,
            RemotePort::B => 0x01,
            RemotePort::HubLed => 0x34,
            RemotePort::VoltageSensor => 0x3B,
            RemotePort::Rssi => 0x3C,
        }
    }
}

/// The session of a remote control.
#[derive(Debug)]
pub struct RemoteControl {
    session: HubSession,
}

impl RemoteControl {
    pub closed spec fn spec_session(&self) -> HubSession {
        self.session
    }

    /// A remote control whose link has just come up, with the properties it advertised.
    pub fn init(properties: HubProperties) -> (r: RemoteControl)
        ensures
            r.spec_session()@.kind == HubType::RemoteControl,
            r.spec_session()@.io == Map::<u8, crate::iodevice::IoDeviceView>::empty(),
            r.spec_session()@.link_open,
            r.spec_session()@.has_properties(properties),
    {
        RemoteControl { session: HubSession::new(HubType::RemoteControl, properties) }
    }

    pub fn properties(&self) -> (r: &HubProperties)
        ensures
            self.spec_session()@.has_properties(*r),
    {
        self.session.properties()
    }

    pub fn session(&self) -> (r: &HubSession)
        ensures
            *r == self.spec_session(),
    {
        &self.session
    }

    pub fn session_mut(&mut self) -> (r: &mut HubSession)
        ensures
            *r == old(self).spec_session(),
            final(self).spec_session() == *final(r),
    {
        &mut self.session
    }

    /// The handle on the device of a named port.
    pub fn port(&self, port: RemotePort) -> (r: Result<Device, Error>)
        ensures
            r is Ok <==> self.spec_session()@.io.contains_key(port.spec_id()),
            r matches Ok(d) ==> d == Device::spec_new(
                self.spec_session()@.io[port.spec_id()].kind,
                port.spec_id(),
            ),
            r matches Err(e) ==> e == Error::NotFound,
    {
        self.session.device(port.id())
    }
}

} // verus!
