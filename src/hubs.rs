//! The hub session: identity, the records of attached devices, and the state of the link.

use vstd::prelude::*;
use std::collections::BTreeMap;
use crate::consts::{HubType, IoTypeId};
use crate::error::Error;
use crate::iodevice::{IoDevice, IoDeviceView};
use crate::codes::{
    AlertOperation, AlertPayload, AlertType, HubAction, HubPropertyOperation, HubPropertyRef,
    InformationType, ModeInformationType,
};
use crate::devices::Device;
use crate::wire::{byte_i8, from_byte_i8};
use crate::text::{mac_string, mac_text, utf8_string, version_string, version_text};
use vstd::utf8::{decode_utf8, encode_utf8_decode_utf8, valid_utf8};
use crate::notifications::{
    ErrorMessageFormat, HubActionRequest, HubAlert, HubProperty, InformationRequest,
    ModeInformationRequest, NotificationMessage, ValueFormatType,
};

pub mod feedback;
pub mod io_event;
pub mod remote;

verus! {

/// Properties of a hub; they arrive one by one and start at their defaults.
#[derive(Debug)]
pub struct HubProperties {
    /// Friendly name, set in the vendor's apps.
    pub name: String,
    pub fw_version: String,
    pub hw_version: String,
    pub mac_address: String,
    /// Battery level in percent.
    pub battery_level: usize,
    /// Signal strength.
    pub rssi: i16,
}

impl Default for HubProperties {
    fn default() -> (r: HubProperties)
        ensures
            r.name@.len() == 0,
            r.fw_version@.len() == 0,
            r.hw_version@.len() == 0,
            r.mac_address@.len() == 0,
            r.battery_level == 0,
            r.rssi == 0,
    {
        HubProperties {
            name: String::new(),
            fw_version: String::new(),
            hw_version: String::new(),
            mac_address: String::new(),
            battery_level: 0,
            rssi: 0,
        }
    }
}

/// A hub-level notice, as published on the hub-notification topic: exactly one field is set.
#[derive(Debug, Clone)]
pub struct HubNotification {
    pub hub_property: Option<HubProperty>,
    pub hub_action: Option<HubActionRequest>,
    pub hub_alert: Option<HubAlert>,
    pub hub_error: Option<ErrorMessageFormat>,
}

/// One connected hub: its kind and properties, one record per attached port, and whether
/// the link is still up.
#[derive(Debug)]
pub struct HubSession {
    kind: HubType,
    properties: HubProperties,
    connected_io: BTreeMap<u8, IoDevice>,
    link_open: bool,
}

pub ghost struct HubSessionView {
    pub kind: HubType,
    pub io: Map<u8, IoDeviceView>,
    pub link_open: bool,
    pub name: Seq<char>,
    pub fw_version: Seq<char>,
    pub hw_version: Seq<char>,
    pub mac_address: Seq<char>,
    pub battery_level: usize,
    pub rssi: i16,
}

impl HubSessionView {
    /// The identity fields of the session are those of `p`.
    pub open spec fn has_properties(self, p: HubProperties) -> bool {
        &&& self.name == p.name@
        &&& self.fw_version == p.fw_version@
        &&& self.hw_version == p.hw_version@
        &&& self.mac_address == p.mac_address@
        &&& self.battery_level == p.battery_level
        &&& self.rssi == p.rssi
    }
}

pub open spec fn io_view(m: Map<u8, IoDevice>) -> Map<u8, IoDeviceView> {
    Map::new(|k: u8| m.contains_key(k), |k: u8| m[k]@)
}

impl View for HubSession {
    type V = HubSessionView;

    closed spec fn view(&self) -> HubSessionView {
        HubSessionView {
            kind: self.kind,
            io: io_view(self.connected_io@),
            link_open: self.link_open,
            name: self.properties.name@,
            fw_version: self.properties.fw_version@,
            hw_version: self.properties.hw_version@,
            mac_address: self.properties.mac_address@,
            battery_level: self.properties.battery_level,
            rssi: self.properties.rssi,
        }
    }
}

impl HubSession {
    pub fn kind(&self) -> (r: HubType)
        ensures
            r == self@.kind,
    {
        self.kind
    }

    pub fn properties(&self) -> (r: &HubProperties)
        ensures
            self@.has_properties(*r),
    {
        &self.properties
    }

    /// Replaces the properties; the records and the link are untouched.
    pub fn set_properties(&mut self, properties: HubProperties)
        ensures
            final(self)@.has_properties(properties),
            final(self)@.kind == old(self)@.kind,
            final(self)@.io == old(self)@.io,
            final(self)@.link_open == old(self)@.link_open,
    {
        self.properties = properties;
    }

    /// A session whose link has just come up: no port is known yet.
    pub fn new(kind: HubType, properties: HubProperties) -> (r: HubSession)
        ensures
            r@.io == Map::<u8, IoDeviceView>::empty(),
            r@.link_open,
            r@.kind == kind,
            r@.has_properties(properties),
    {
        let r = HubSession { kind, properties, connected_io: BTreeMap::new(), link_open: true };
        assert(r@.io =~= Map::<u8, IoDeviceView>::empty());
        r
    }

    pub fn is_connected(&self) -> (r: bool)
        ensures
            r == self@.link_open,
    {
        self.link_open
    }

    /// The link is gone; records stay for inspection.
    pub fn close(&mut self)
        ensures
            final(self)@ == (HubSessionView { link_open: false, ..old(self)@ }),
    {
        self.link_open = false;
    }

    /// Stores the record of a device, replacing any record of the same port.
    pub fn attach_io(&mut self, device: IoDevice)
        ensures
            final(self)@ == (HubSessionView {
                io: old(self)@.io.insert(device.port, device@),
                ..old(self)@
            }),
    {
        let ghost before = self.connected_io@;
        self.connected_io.insert(device.port, device);
        assert(io_view(self.connected_io@) =~= io_view(before).insert(device.port, device@));
    }

    /// Removes the record of a port, if there is one.
    pub fn detach_io(&mut self, port: u8)
        ensures
            final(self)@ == (HubSessionView { io: old(self)@.io.remove(port), ..old(self)@ }),
    {
        let ghost before = self.connected_io@;
        self.connected_io.remove(&port);
        assert(io_view(self.connected_io@) =~= io_view(before).remove(port));
    }

    /// The record of a port.
    pub fn io_from_port(&self, port: u8) -> (r: Result<&IoDevice, Error>)
        ensures
            r is Ok <==> self@.io.contains_key(port),
            r matches Ok(d) ==> d@ == self@.io[port],
            r matches Err(e) ==> e == Error::NotFound,
    {
        match self.connected_io.get(&port) {
            Some(d) => Ok(d),
            None => Err(Error::NotFound),
        }
    }

    /// Stores a record under `port`.
    pub(crate) fn put_io(&mut self, port: u8, device: IoDevice)
        ensures
            final(self)@ == (HubSessionView { io: old(self)@.io.insert(port, device@), ..old(self)@ }),
    {
        let ghost before = self.connected_io@;
        self.connected_io.insert(port, device);
        assert(io_view(self.connected_io@) =~= io_view(before).insert(port, device@));
    }

    /// Takes the record of a port out, to be changed and put back with `put_io`.
    pub(crate) fn take_io(&mut self, port: u8) -> (r: Option<IoDevice>)
        ensures
            r is Some <==> old(self)@.io.contains_key(port),
            r matches Some(d) ==> d@ == old(self)@.io[port],
            final(self)@ == (HubSessionView { io: old(self)@.io.remove(port), ..old(self)@ }),
    {
        let ghost before = self.connected_io@;
        let r = self.connected_io.remove(&port);
        assert(io_view(self.connected_io@) =~= io_view(before).remove(port));
        r
    }
}

/// Result of a command on a closed link, or the frame to write.
pub open spec fn command_result(link_open: bool, r: Result<Vec<u8>, Error>, m: NotificationMessage) -> bool {
    &&& !link_open ==> r == Err::<Vec<u8>, Error>(Error::Disconnected)
    &&& link_open ==> (r matches Ok(f) && f@ == m.spec_encode())
}

pub open spec fn mode_info_request(port: u8, mode: u8, t: ModeInformationType) -> NotificationMessage {
    NotificationMessage::PortModeInformationRequest(
        ModeInformationRequest { port_id: port, mode, information_type: t },
    )
}

pub open spec fn hub_alert_request(t: AlertType, op: AlertOperation) -> NotificationMessage {
    NotificationMessage::HubAlerts(HubAlert { alert_type: t, operation: op, payload: AlertPayload::StatusOk })
}

impl HubSession {
    fn frame_of(&self, m: NotificationMessage) -> (r: Result<Vec<u8>, Error>)
        requires
            m.wf(),
        ensures
            command_result(self@.link_open, r, m),
    {
        if self.link_open {
            Ok(m.encode())
        } else {
            Err(Error::Disconnected)
        }
    }

    /// Asks for port information of a port.
    pub fn request_port_info(&self, port_id: u8, infotype: InformationType) -> (r: Result<Vec<u8>, Error>)
        ensures
            command_result(
                self@.link_open,
                r,
                NotificationMessage::PortInformationRequest(
                    InformationRequest { port_id, information_type: infotype },
                ),
            ),
    {
        self.frame_of(
            NotificationMessage::PortInformationRequest(
                InformationRequest { port_id, information_type: infotype },
            ),
        )
    }

    /// Asks for one piece of metadata of one mode of a port.
    pub fn req_mode_info(&self, port_id: u8, mode: u8, infotype: ModeInformationType) -> (r: Result<
        Vec<u8>,
        Error,
    >)
        ensures
            command_result(self@.link_open, r, mode_info_request(port_id, mode, infotype)),
    {
        self.frame_of(
            NotificationMessage::PortModeInformationRequest(
                ModeInformationRequest { port_id, mode, information_type: infotype },
            ),
        )
    }

    /// Requests, enables, disables or resets a hub property.
    pub fn hub_props(&self, reference: HubPropertyRef, operation: HubPropertyOperation) -> (r: Result<
        Vec<u8>,
        Error,
    >)
        ensures
            !self@.link_open ==> r == Err::<Vec<u8>, Error>(Error::Disconnected),
            self@.link_open ==> (r matches Ok(f) && f@ == crate::wire::frame(
                0x01,
                seq![reference.spec_code(), operation.spec_code()],
            )),
    {
        let m = NotificationMessage::HubProperties(
            HubProperty { reference, operation, payload: Vec::new() },
        );
        let r = self.frame_of(m);
        assert(m.payload_bytes() =~= seq![reference.spec_code(), operation.spec_code()]);
        r
    }

    /// Asks the hub to perform an action.
    pub fn hub_action(&self, action_type: HubAction) -> (r: Result<Vec<u8>, Error>)
        ensures
            command_result(
                self@.link_open,
                r,
                NotificationMessage::HubActions(HubActionRequest { action_type }),
            ),
    {
        self.frame_of(NotificationMessage::HubActions(HubActionRequest { action_type }))
    }

    /// Requests, enables or disables updates of a hub alert.
    pub fn hub_alerts(&self, alert_type: AlertType, operation: AlertOperation) -> (r: Result<
        Vec<u8>,
        Error,
    >)
        ensures
            command_result(self@.link_open, r, hub_alert_request(alert_type, operation)),
    {
        self.frame_of(
            NotificationMessage::HubAlerts(
                HubAlert { alert_type, operation, payload: AlertPayload::StatusOk },
            ),
        )
    }

    /// The handle on the device of the lowest port that holds a device of `kind`.
    pub fn device_of_kind(&self, kind: IoTypeId) -> (r: Result<Device, Error>)
        ensures
            r is Err <==> !exists|p: u8| #[trigger] self@.io.contains_key(p) && self@.io[p].kind == kind,
            r matches Err(e) ==> e == Error::NotFound,
            r matches Ok(d) ==> {
                &&& self@.io.contains_key(d.spec_port())
                &&& self@.io[d.spec_port()].kind == kind
                &&& d == Device::spec_new(kind, d.spec_port())
                &&& forall|q: u8| #[trigger] self@.io.contains_key(q) && q < d.spec_port() ==> self@.io[q].kind != kind
            },
    {
        let mut p: u16 = 0;
        while p < 256
            invariant
                p <= 256,
                forall|q: u8| #[trigger] self@.io.contains_key(q) && q < p ==> self@.io[q].kind != kind,
            decreases 256 - p,
        {
            match self.io_from_port(p as u8) {
                Ok(rec) => {
                    if rec.kind == kind {
                        return Ok(Device::new(kind, p as u8));
                    }
                },
                Err(_) => {},
            }
            p = p + 1;
        }
        Err(Error::NotFound)
    }
}

impl HubSession {
    /// The value format recorded for a mode of a port, once it has arrived.
    pub fn mode_value_format(&self, port: u8, mode: u8) -> (r: Option<ValueFormatType>)
        ensures
            r == (if self@.io.contains_key(port) && self@.io[port].modes.contains_key(mode) {
                self@.io[port].modes[mode].value_format
            } else {
                None
            }),
    {
        match self.io_from_port(port) {
            Ok(rec) => match rec.modes.get(&mode) {
                Some(info) => info.value_format,
                None => None,
            },
            Err(_) => None,
        }
    }

    /// The ports that have a record, ascending.
    pub fn attached_io(&self) -> (r: Vec<u8>)
        ensures
            forall|i: int, j: int| 0 <= i < j < r@.len() ==> r@[i] < r@[j],
            forall|p: u8| #[trigger] self@.io.contains_key(p) <==> r@.contains(p),
    {
        let mut r: Vec<u8> = Vec::new();
        let mut p: u16 = 0;
        while p < 256
            invariant
                p <= 256,
                forall|i: int, j: int| 0 <= i < j < r@.len() ==> r@[i] < r@[j],
                forall|i: int| 0 <= i < r@.len() ==> r@[i] < p,
                forall|q: u8| q < p ==> (#[trigger] self@.io.contains_key(q) <==> r@.contains(q)),
                forall|q: u8| q >= p ==> !r@.contains(q),
            decreases 256 - p,
        {
            let ghost before = r@;
            if self.io_from_port(p as u8).is_ok() {
                r.push(p as u8);
                assert forall|q: u8| before.contains(q) implies r@.contains(q) by {
                    let i = choose|i: int| 0 <= i < before.len() && before[i] == q;
                    assert(r@[i] == q);
                }
                assert forall|q: u8| r@.contains(q) implies (before.contains(q) || q == p) by {
                    let i = choose|i: int| 0 <= i < r@.len() && r@[i] == q;
                    if i < before.len() {
                        assert(before[i] == q);
                    }
                }
                assert(r@[r@.len() - 1] == p as u8);
            }
            p = p + 1;
        }
        r
    }
}

/// The session after a hub property message. An update stores the reported identity field:
/// the name (when it is UTF-8), a firmware or hardware version, the MAC address, the battery
/// level or the signal strength. Anything else, and a report too short for its field, leaves
/// the session as it is.
pub open spec fn property_applied(s: HubSessionView, p: HubProperty) -> HubSessionView {
    let v = p.payload@;
    if p.operation != HubPropertyOperation::Update {
        s
    } else if p.reference == HubPropertyRef::AdvertisingName && valid_utf8(v) {
        HubSessionView { name: decode_utf8(v), ..s }
    } else if p.reference == HubPropertyRef::FwVersion && v.len() >= 4 {
        HubSessionView { fw_version: version_text(v), ..s }
    } else if p.reference == HubPropertyRef::HwVersion && v.len() >= 4 {
        HubSessionView { hw_version: version_text(v), ..s }
    } else if p.reference == HubPropertyRef::PrimaryMacAddress && v.len() >= 6 {
        HubSessionView { mac_address: mac_text(v), ..s }
    } else if p.reference == HubPropertyRef::BatteryVoltage && v.len() >= 1 {
        HubSessionView { battery_level: v[0] as usize, ..s }
    } else if p.reference == HubPropertyRef::Rssi && v.len() >= 1 {
        HubSessionView { rssi: byte_i8(v[0]) as i16, ..s }
    } else {
        s
    }
}

impl HubSession {
    /// Stores what a hub property message reports about the hub's identity.
    pub fn apply_property(&mut self, p: &HubProperty)
        ensures
            final(self)@ == property_applied(old(self)@, *p),
    {
        if p.operation != HubPropertyOperation::Update {
            return;
        }
        let v = &p.payload;
        if p.reference == HubPropertyRef::AdvertisingName {
            match utf8_string(v) {
                Some(name) => {
                    proof {
                        encode_utf8_decode_utf8(name@);
                    }
                    self.properties.name = name;
                },
                None => {},
            }
        } else if p.reference == HubPropertyRef::FwVersion {
            if v.len() >= 4 {
                self.properties.fw_version = version_string(v.as_slice());
            }
        } else if p.reference == HubPropertyRef::HwVersion {
            if v.len() >= 4 {
                self.properties.hw_version = version_string(v.as_slice());
            }
        } else if p.reference == HubPropertyRef::PrimaryMacAddress {
            if v.len() >= 6 {
                self.properties.mac_address = mac_string(v.as_slice());
            }
        } else if p.reference == HubPropertyRef::BatteryVoltage {
            if v.len() >= 1 {
                self.properties.battery_level = v[0] as usize;
            }
        } else if p.reference == HubPropertyRef::Rssi {
            if v.len() >= 1 {
                self.properties.rssi = from_byte_i8(v[0]) as i16;
            }
        }
    }
}

} // verus!
