//! The port record: what the hub has reported about the device on one port.

use vstd::prelude::*;
use std::collections::BTreeMap;
use crate::consts::IoTypeId;
use crate::notifications::{PortModeInformationType, ValueFormatType};

verus! {

/// A numeric range of a mode, as IEEE-754 single-precision bit patterns.
#[derive(Debug, Clone, Copy, PartialEq, Eq, Structural)]
pub struct ModeRange {
    pub min: u32,
    pub max: u32,
}

/// What has arrived so far about one mode of a device; each field arrives on its own.
#[derive(Debug)]
pub struct ModeInfo {
    pub name: Option<Vec<u8>>,
    pub raw: Option<ModeRange>,
    pub pct: Option<ModeRange>,
    pub si: Option<ModeRange>,
    pub symbol: Option<Vec<u8>>,
    /// Input and output mapping flags.
    pub mapping: Option<(u8, u8)>,
    pub motor_bias: Option<u8>,
    pub value_format: Option<ValueFormatType>,
}

pub ghost struct ModeInfoView {
    pub name: Option<Seq<u8>>,
    pub raw: Option<ModeRange>,
    pub pct: Option<ModeRange>,
    pub si: Option<ModeRange>,
    pub symbol: Option<Seq<u8>>,
    pub mapping: Option<(u8, u8)>,
    pub motor_bias: Option<u8>,
    pub value_format: Option<ValueFormatType>,
}

pub open spec fn bytes_view(o: Option<Vec<u8>>) -> Option<Seq<u8>> {
    match o {
        Some(v) => Some(v@),
        None => None,
    }
}

impl View for ModeInfo {
    type V = ModeInfoView;

    open spec fn view(&self) -> ModeInfoView {
        ModeInfoView {
            name: bytes_view(self.name),
            raw: self.raw,
            pct: self.pct,
            si: self.si,
            symbol: bytes_view(self.symbol),
            mapping: self.mapping,
            motor_bias: self.motor_bias,
            value_format: self.value_format,
        }
    }
}

/// A mode about which nothing has arrived yet.
pub open spec fn empty_mode_info() -> ModeInfoView {
    ModeInfoView {
        name: None,
        raw: None,
        pct: None,
        si: None,
        symbol: None,
        mapping: None,
        motor_bias: None,
        value_format: None,
    }
}

/// The mode after a per-mode reply: the reply's own field is overwritten, the others kept.
pub open spec fn mode_info_applied(m: ModeInfoView, t: PortModeInformationType) -> ModeInfoView {
    match t {
        PortModeInformationType::Name(v) => ModeInfoView { name: Some(v@), ..m },
        PortModeInformationType::RawRange { min, max } => ModeInfoView {
            raw: Some(ModeRange { min, max }),
            ..m
        },
        PortModeInformationType::PctRange { min, max } => ModeInfoView {
            pct: Some(ModeRange { min, max }),
            ..m
        },
        PortModeInformationType::SiRange { min, max } => ModeInfoView {
            si: Some(ModeRange { min, max }),
            ..m
        },
        PortModeInformationType::Symbol(v) => ModeInfoView { symbol: Some(v@), ..m },
        PortModeInformationType::Mapping { input, output } => ModeInfoView {
            mapping: Some((input, output)),
            ..m
        },
        PortModeInformationType::MotorBias(b) => ModeInfoView { motor_bias: Some(b), ..m },
        PortModeInformationType::ValueFormat(f) => ModeInfoView { value_format: Some(f), ..m },
    }
}

/// Which of the eight per-mode fields a reply fills.
pub open spec fn mode_reply_slot(t: PortModeInformationType) -> int {
    match t {
        PortModeInformationType::Name(_) => 0,
        PortModeInformationType::RawRange { .. } => 1,
        PortModeInformationType::PctRange { .. } => 2,
        PortModeInformationType::SiRange { .. } => 3,
        PortModeInformationType::Symbol(_) => 4,
        PortModeInformationType::Mapping { .. } => 5,
        PortModeInformationType::MotorBias(_) => 6,
        PortModeInformationType::ValueFormat(_) => 7,
    }
}

impl ModeInfo {
    pub fn new() -> (r: ModeInfo)
        ensures
            r@ == empty_mode_info(),
    {
        ModeInfo {
            name: None,
            raw: None,
            pct: None,
            si: None,
            symbol: None,
            mapping: None,
            motor_bias: None,
            value_format: None,
        }
    }

    /// Stores one per-mode reply, overwriting what the same kind of reply stored before.
    pub fn apply(&mut self, t: PortModeInformationType)
        ensures
            final(self)@ == mode_info_applied(old(self)@, t),
    {
        match t {
            PortModeInformationType::Name(v) => self.name = Some(v),
            PortModeInformationType::RawRange { min, max } => self.raw = Some(ModeRange { min, max }),
            PortModeInformationType::PctRange { min, max } => self.pct = Some(ModeRange { min, max }),
            PortModeInformationType::SiRange { min, max } => self.si = Some(ModeRange { min, max }),
            PortModeInformationType::Symbol(v) => self.symbol = Some(v),
            PortModeInformationType::Mapping { input, output } => self.mapping = Some((input, output)),
            PortModeInformationType::MotorBias(b) => self.motor_bias = Some(b),
            PortModeInformationType::ValueFormat(f) => self.value_format = Some(f),
        }
    }
}

/// Two per-mode replies of different kinds can be stored in either order.
pub proof fn lemma_mode_replies_commute(
    m: ModeInfoView,
    a: PortModeInformationType,
    b: PortModeInformationType,
)
    requires
        mode_reply_slot(a) != mode_reply_slot(b),
    ensures
        mode_info_applied(mode_info_applied(m, a), b) == mode_info_applied(
            mode_info_applied(m, b),
            a,
        ),
{
}

/// The record of one port.
#[derive(Debug)]
pub struct IoDevice {
    pub kind: IoTypeId,
    pub port: u8,
    pub mode_count: u8,
    pub capabilities: u8,
    pub input_modes: u16,
    pub output_modes: u16,
    /// The valid mode combinations, one bitmask of modes each.
    pub valid_combos: Vec<u16>,
    pub modes: BTreeMap<u8, ModeInfo>,
    /// For a virtual port, the two physical ports that it combines.
    pub virtual_ports: Option<(u8, u8)>,
}

pub ghost struct IoDeviceView {
    pub kind: IoTypeId,
    pub port: u8,
    pub mode_count: u8,
    pub capabilities: u8,
    pub input_modes: u16,
    pub output_modes: u16,
    pub valid_combos: Seq<u16>,
    pub modes: Map<u8, ModeInfoView>,
    pub virtual_ports: Option<(u8, u8)>,
}

pub open spec fn modes_view(m: Map<u8, ModeInfo>) -> Map<u8, ModeInfoView> {
    Map::new(|k: u8| m.contains_key(k), |k: u8| m[k]@)
}

impl View for IoDevice {
    type V = IoDeviceView;

    open spec fn view(&self) -> IoDeviceView {
        IoDeviceView {
            kind: self.kind,
            port: self.port,
            mode_count: self.mode_count,
            capabilities: self.capabilities,
            input_modes: self.input_modes,
            output_modes: self.output_modes,
            valid_combos: self.valid_combos@,
            modes: modes_view(self.modes@),
            virtual_ports: self.virtual_ports,
        }
    }
}

/// The record of a device that has just attached: nothing but its kind and port is known.
pub open spec fn fresh_record(kind: IoTypeId, port: u8, virtual_ports: Option<(u8, u8)>) -> IoDeviceView {
    IoDeviceView {
        kind,
        port,
        mode_count: 0,
        capabilities: 0,
        input_modes: 0,
        output_modes: 0,
        valid_combos: Seq::empty(),
        modes: Map::empty(),
        virtual_ports,
    }
}

/// The record after a mode-info reply.
pub open spec fn mode_info_set(
    r: IoDeviceView,
    capabilities: u8,
    mode_count: u8,
    input_modes: u16,
    output_modes: u16,
) -> IoDeviceView {
    IoDeviceView { capabilities, mode_count, input_modes, output_modes, ..r }
}

/// The record after a per-mode reply for `mode`.
pub open spec fn record_applied(r: IoDeviceView, mode: u8, t: PortModeInformationType) -> IoDeviceView {
    let before = if r.modes.contains_key(mode) { r.modes[mode] } else { empty_mode_info() };
    IoDeviceView { modes: r.modes.insert(mode, mode_info_applied(before, t)), ..r }
}

impl IoDevice {
    pub fn new(kind: IoTypeId, port: u8) -> (r: IoDevice)
        ensures
            r@ == fresh_record(kind, port, None),
    {
        let r = IoDevice {
            kind,
            port,
            mode_count: 0,
            capabilities: 0,
            input_modes: 0,
            output_modes: 0,
            valid_combos: Vec::new(),
            modes: BTreeMap::new(),
            virtual_ports: None,
        };
        assert(r@.modes =~= Map::empty());
        assert(r@.valid_combos =~= Seq::empty());
        r
    }

    /// The record of a virtual port that combines the physical ports `a` and `b`.
    pub fn new_virtual(kind: IoTypeId, port: u8, a: u8, b: u8) -> (r: IoDevice)
        ensures
            r@ == fresh_record(kind, port, Some((a, b))),
    {
        let mut r = IoDevice::new(kind, port);
        r.virtual_ports = Some((a, b));
        r
    }

    /// Stores a mode-info reply.
    pub fn set_mode_info(
        &mut self,
        capabilities: u8,
        mode_count: u8,
        input_modes: u16,
        output_modes: u16,
    )
        ensures
            final(self)@ == mode_info_set(old(self)@, capabilities, mode_count, input_modes, output_modes),
    {
        self.capabilities = capabilities;
        self.mode_count = mode_count;
        self.input_modes = input_modes;
        self.output_modes = output_modes;
    }

    /// Stores a mode-combination reply.
    pub fn set_valid_combos(&mut self, combos: Vec<u16>)
        ensures
            final(self)@ == (IoDeviceView { valid_combos: combos@, ..old(self)@ }),
    {
        self.valid_combos = combos;
    }

    /// Stores a per-mode reply for `mode`, whatever arrived before it.
    pub fn set_mode_information(&mut self, mode: u8, t: PortModeInformationType)
        ensures
            final(self)@ == record_applied(old(self)@, mode, t),
    {
        let ghost before = self.modes@;
        let mut info = match self.modes.remove(&mode) {
            Some(info) => info,
            None => ModeInfo::new(),
        };
        info.apply(t);
        self.modes.insert(mode, info);
        assert(modes_view(self.modes@) =~= modes_view(before).insert(
            mode,
            mode_info_applied(
                if modes_view(before).contains_key(mode) {
                    modes_view(before)[mode]
                } else {
                    empty_mode_info()
                },
                t,
            ),
        ));
    }
}

/// Two per-mode replies of different kinds, for any modes, can be stored in either order.
pub proof fn lemma_record_replies_commute(
    r: IoDeviceView,
    m1: u8,
    a: PortModeInformationType,
    m2: u8,
    b: PortModeInformationType,
)
    requires
        m1 != m2 || mode_reply_slot(a) != mode_reply_slot(b),
    ensures
        record_applied(record_applied(r, m1, a), m2, b) == record_applied(
            record_applied(r, m2, b),
            m1,
            a,
        ),
{
    let x = record_applied(record_applied(r, m1, a), m2, b);
    let y = record_applied(record_applied(r, m2, b), m1, a);
    if m1 == m2 {
        let before = if r.modes.contains_key(m1) { r.modes[m1] } else { empty_mode_info() };
        lemma_mode_replies_commute(before, a, b);
    }
    assert(x.modes =~= y.modes);
}

/// The eight per-mode replies for one mode, stored in the order they are requested or in
/// the reverse order, give the same record.
pub proof fn lemma_mode_replies_reverse_order(
    r: IoDeviceView,
    mode: u8,
    t0: PortModeInformationType,
    t1: PortModeInformationType,
    t2: PortModeInformationType,
    t3: PortModeInformationType,
    t4: PortModeInformationType,
    t5: PortModeInformationType,
    t6: PortModeInformationType,
    t7: PortModeInformationType,
)
    requires
        mode_reply_slot(t0) == 0,
        mode_reply_slot(t1) == 1,
        mode_reply_slot(t2) == 2,
        mode_reply_slot(t3) == 3,
        mode_reply_slot(t4) == 4,
        mode_reply_slot(t5) == 5,
        mode_reply_slot(t6) == 6,
        mode_reply_slot(t7) == 7,
    ensures
        record_applied(
            record_applied(
                record_applied(
                    record_applied(
                        record_applied(
                            record_applied(
                                record_applied(record_applied(r, mode, t0), mode, t1),
                                mode,
                                t2,
                            ),
                            mode,
                            t3,
                        ),
                        mode,
                        t4,
                    ),
                    mode,
                    t5,
                ),
                mode,
                t6,
            ),
            mode,
            t7,
        ) == record_applied(
            record_applied(
                record_applied(
                    record_applied(
                        record_applied(
                            record_applied(
                                record_applied(record_applied(r, mode, t7), mode, t6),
                                mode,
                                t5,
                            ),
                            mode,
                            t4,
                        ),
                        mode,
                        t3,
                    ),
                    mode,
                    t2,
                ),
                mode,
                t1,
            ),
            mode,
            t0,
        ),
{
    let forward = record_applied(
        record_applied(
            record_applied(
                record_applied(
                    record_applied(
                        record_applied(record_applied(record_applied(r, mode, t0), mode, t1), mode, t2),
                        mode,
                        t3,
                    ),
                    mode,
                    t4,
                ),
                mode,
                t5,
            ),
            mode,
            t6,
        ),
        mode,
        t7,
    );
    let backward = record_applied(
        record_applied(
            record_applied(
                record_applied(
                    record_applied(
                        record_applied(record_applied(record_applied(r, mode, t7), mode, t6), mode, t5),
                        mode,
                        t4,
                    ),
                    mode,
                    t3,
                ),
                mode,
                t2,
            ),
            mode,
            t1,
        ),
        mode,
        t0,
    );
    assert(forward.modes =~= backward.modes);
}

} // verus!
