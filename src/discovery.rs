//! Recognising hubs among advertising devices, and choosing among them.

use vstd::prelude::*;
use crate::consts::{BLEManufacturerData, HubType, LPF2_HUB_SERVICE, WEDO2_SMART_HUB_SERVICE};

verus! {

/// A hub seen while scanning, as passed on to connect to it.
#[derive(Debug, Clone)]
pub struct DiscoveredHub {
    pub hub_type: HubType,
    /// The transport's address of the hub, as text.
    pub addr: String,
    /// Friendly name, as set in the vendor's apps.
    pub name: String,
}

/// Properties by which to filter discovered hubs.
#[derive(Debug)]
pub enum HubFilter {
    /// The hub's name must be the given one.
    Name(String),
    /// The hub's address must be the given one.
    Addr(String),
    /// Every hub matches.
    Null,
}

impl HubFilter {
    pub open spec fn spec_matches(&self, hub: &DiscoveredHub) -> bool {
        match self {
            HubFilter::Name(n) => hub.name@ == n@,
            HubFilter::Addr(a) => hub.addr@ == a@,
            HubFilter::Null => true,
        }
    }

    /// Whether a discovered hub passes this filter.
    pub fn matches(&self, hub: &DiscoveredHub) -> (r: bool)
        ensures
            r == self.spec_matches(hub),
    {
        match self {
            HubFilter::Name(n) => hub.name == *n,
            HubFilter::Addr(a) => hub.addr == *a,
            HubFilter::Null => true,
        }
    }
}

/// The hub kind that an advertised manufacturer id stands for.
pub open spec fn hub_type_of(m: BLEManufacturerData) -> HubType {
    match m {
        BLEManufacturerData::DuploTrainBaseId => HubType::DuploTrainBase,
        BLEManufacturerData::HubId => HubType::Hub,
        BLEManufacturerData::MarioId => HubType::Mario,
        BLEManufacturerData::MoveHubId => HubType::MoveHub,
        BLEManufacturerData::RemoteControlId => HubType::RemoteControl,
        BLEManufacturerData::TechnicMediumHubId => HubType::TechnicMediumHub,
    }
}

/// The kind of hub that advertises `services` and, under the vendor's company id,
/// `manufacturer_data`: a WeDo 2.0 hub by its own service; any other hub by the common hub
/// service and the id in the second byte of its manufacturer data.
pub open spec fn spec_identify_hub(services: Seq<u128>, manufacturer_data: Option<Seq<u8>>) -> Option<
    HubType,
> {
    if services.contains(WEDO2_SMART_HUB_SERVICE) {
        Some(HubType::Wedo2SmartHub)
    } else if services.contains(LPF2_HUB_SERVICE) {
        match manufacturer_data {
            Some(d) => if d.len() >= 2 && BLEManufacturerData::is_code(d[1]) {
                Some(
                    hub_type_of(
                        choose|m: BLEManufacturerData| m.spec_code() == d[1],
                    ),
                )
            } else {
                None
            },
            None => None,
        }
    } else {
        None
    }
}

fn contains_service(services: &Vec<u128>, s: u128) -> (r: bool)
    ensures
        r == services@.contains(s),
{
    let mut i: usize = 0;
    while i < services.len()
        invariant
            i <= services@.len(),
            forall|j: int| 0 <= j < i ==> services@[j] != s,
        decreases services@.len() - i,
    {
        if services[i] == s {
            assert(services@[i as int] == s);
            return true;
        }
        i = i + 1;
    }
    false
}

fn hub_type_from(m: BLEManufacturerData) -> (r: HubType)
    ensures
        r == hub_type_of(m),
{
    match m {
        BLEManufacturerData::DuploTrainBaseId => HubType::DuploTrainBase,
        BLEManufacturerData::HubId => HubType::Hub,
        BLEManufacturerData::MarioId => HubType::Mario,
        BLEManufacturerData::MoveHubId => HubType::MoveHub,
        BLEManufacturerData::RemoteControlId => HubType::RemoteControl,
        BLEManufacturerData::TechnicMediumHubId => HubType::TechnicMediumHub,
    }
}

/// Recognises a hub from what it advertises; `None` for any other device.
pub fn identify_hub(services: &Vec<u128>, manufacturer_data: Option<&Vec<u8>>) -> (r: Option<HubType>)
    ensures
        r == spec_identify_hub(
            services@,
            match manufacturer_data {
                Some(d) => Some(d@),
                None => None,
            },
        ),
{
    if contains_service(services, WEDO2_SMART_HUB_SERVICE) {
        Some(HubType::Wedo2SmartHub)
    } else if contains_service(services, LPF2_HUB_SERVICE) {
        match manufacturer_data {
            Some(d) => {
                if d.len() >= 2 {
                    match BLEManufacturerData::from_code(d[1]) {
                        Some(m) => {
                            proof {
                                let c = choose|x: BLEManufacturerData| x.spec_code() == d@[1];
                                assert(c.spec_code() == m.spec_code());
                                assert(c == m);
                            }
                            Some(hub_type_from(m))
                        },
                        None => None,
                    }
                } else {
                    None
                }
            },
            None => None,
        }
    } else {
        None
    }
}

/// One step of waiting for `count` hubs that pass `filter`: whether the newly identified
/// `hub` is kept, and whether the wait is over once it has been counted. `matched` is how
/// many hubs were kept before it.
pub fn scan_step(filter: &HubFilter, hub: &DiscoveredHub, matched: usize, count: u8) -> (r: (
    bool,
    bool,
))
    ensures
        r.0 == filter.spec_matches(hub),
        r.1 == (matched + (if r.0 { 1int } else { 0int }) == count as int),
{
    let keep = filter.matches(hub);
    let done = if keep {
        matched < usize::MAX && matched + 1 == count as usize
    } else {
        matched == count as usize
    };
    (keep, done)
}

} // verus!
