//! The notification dispatcher's decisions: what each received frame does to the session,
//! which follow-up requests it issues, and what it publishes. Reading the transport and
//! publishing on the topic channels is left to the caller, which runs the loop.

use vstd::prelude::*;
use crate::codes::{InformationType, ModeInformationType};
use crate::consts::io_type_of;
use crate::hubs::{property_applied, HubNotification, HubSession, HubSessionView};
use crate::iodevice::{
    fresh_record, mode_info_set, record_applied, IoDevice, IoDeviceView,
};
use crate::notifications::{
    decode, frame_ok, AttachedIo, InformationRequest, IoAttachEvent, ModeInformationRequest,
    NetworkCommand, NotificationMessage, PortInformationType, PortInformationValue,
    PortModeInformationValue, PortOutputCommandFeedbackFormat, PortValueCombinedFormat,
    PortValueSingleFormat,
};
use crate::consts::IoTypeId;
use crate::wire::declared_len;

verus! {

/// What the dispatcher hands to the topic channels for one message.
#[derive(Debug, Clone)]
pub enum Publication {
    SingleValue(PortValueSingleFormat),
    CombinedValue(PortValueCombinedFormat),
    NetworkCommand(NetworkCommand),
    Hub(HubNotification),
}

/// A port-level notification, one field set, as handed to per-port consumers.
#[derive(Debug, Clone)]
pub struct ChannelNotification {
    pub portvaluesingle: Option<PortValueSingleFormat>,
    pub portvaluescombined: Option<PortValueCombinedFormat>,
    pub portoutputcommandfeedback: Option<PortOutputCommandFeedbackFormat>,
}

/// What handling one frame asks of the caller: the follow-up frames to write, in order,
/// and what to publish.
#[derive(Debug)]
pub struct Dispatch {
    pub requests: Vec<Vec<u8>>,
    pub publication: Option<Publication>,
}

/// The kind of the `k`-th of the eight per-mode requests, in the order they are issued.
pub open spec fn mode_request_kind(k: int) -> ModeInformationType {
    if k == 0 {
        ModeInformationType::Name
    } else if k == 1 {
        ModeInformationType::Raw
    } else if k == 2 {
        ModeInformationType::Pct
    } else if k == 3 {
        ModeInformationType::Si
    } else if k == 4 {
        ModeInformationType::Symbol
    } else if k == 5 {
        ModeInformationType::Mapping
    } else if k == 6 {
        ModeInformationType::MotorBias
    } else {
        ModeInformationType::ValueFormat
    }
}

/// The `i`-th per-mode request for a port: modes ascending, eight kinds per mode.
pub open spec fn mode_request(port: u8, i: int) -> NotificationMessage {
    NotificationMessage::PortModeInformationRequest(
        ModeInformationRequest {
            port_id: port,
            mode: (i / 8) as u8,
            information_type: mode_request_kind(i % 8),
        },
    )
}

/// All per-mode requests for a port with `n` modes.
pub open spec fn mode_requests(port: u8, n: u8) -> Seq<NotificationMessage> {
    Seq::new((8 * n) as nat, |i: int| mode_request(port, i))
}

pub open spec fn port_info_request(port: u8, t: InformationType) -> NotificationMessage {
    NotificationMessage::PortInformationRequest(
        InformationRequest { port_id: port, information_type: t },
    )
}

/// The two requests that follow an attach.
pub open spec fn attach_requests(port: u8) -> Seq<NotificationMessage> {
    seq![
        port_info_request(port, InformationType::ModeInfo),
        port_info_request(port, InformationType::PossibleModeCombinations),
    ]
}

/// The session after the dispatcher handled `m`.
pub open spec fn dispatch_state(s: HubSessionView, m: NotificationMessage) -> HubSessionView {
    match m {
        NotificationMessage::HubAttachedIo(AttachedIo { port, event }) => match event {
            IoAttachEvent::AttachedIo { io_type_id, .. } => HubSessionView {
                io: s.io.insert(port, fresh_record(io_type_of(io_type_id), port, None)),
                ..s
            },
            IoAttachEvent::AttachedVirtualIo { io_type_id, port_a, port_b } => HubSessionView {
                io: s.io.insert(port, fresh_record(io_type_of(io_type_id), port, Some((port_a, port_b)))),
                ..s
            },
            IoAttachEvent::DetachedIo => HubSessionView { io: s.io.remove(port), ..s },
        },
        NotificationMessage::PortInformation(PortInformationValue { port_id, information_type }) => {
            if s.io.contains_key(port_id) {
                let r = s.io[port_id];
                let r2 = match information_type {
                    PortInformationType::ModeInfo {
                        capabilities,
                        mode_count,
                        input_modes,
                        output_modes,
                    } => mode_info_set(r, capabilities, mode_count, input_modes, output_modes),
                    PortInformationType::PossibleModeCombinations(c) => IoDeviceView {
                        valid_combos: c@,
                        ..r
                    },
                };
                HubSessionView { io: s.io.insert(port_id, r2), ..s }
            } else {
                s
            }
        },
        NotificationMessage::PortModeInformation(
            PortModeInformationValue { port_id, mode, information_type },
        ) => {
            if s.io.contains_key(port_id) {
                HubSessionView {
                    io: s.io.insert(port_id, record_applied(s.io[port_id], mode, information_type)),
                    ..s
                }
            } else {
                s
            }
        },
        NotificationMessage::HubProperties(p) => property_applied(s, p),
        _ => s,
    }
}

/// The follow-up requests that the dispatcher issues for `m`, in order.
pub open spec fn dispatch_requests(s: HubSessionView, m: NotificationMessage) -> Seq<
    NotificationMessage,
> {
    match m {
        NotificationMessage::HubAttachedIo(AttachedIo { port, event }) => match event {
            IoAttachEvent::DetachedIo => Seq::empty(),
            _ => attach_requests(port),
        },
        NotificationMessage::PortInformation(
            PortInformationValue {
                port_id,
                information_type: PortInformationType::ModeInfo { mode_count, .. },
            },
        ) => if s.io.contains_key(port_id) {
            mode_requests(port_id, mode_count)
        } else {
            Seq::empty()
        },
        _ => Seq::empty(),
    }
}

/// What the dispatcher publishes for `m`.
pub open spec fn dispatch_publication(m: NotificationMessage) -> Option<Publication> {
    match m {
        NotificationMessage::PortValueSingle(v) => Some(Publication::SingleValue(v)),
        NotificationMessage::PortValueCombined(v) => Some(Publication::CombinedValue(v)),
        NotificationMessage::HwNetworkCommands(c) => Some(Publication::NetworkCommand(c)),
        NotificationMessage::HubProperties(p) => Some(
            Publication::Hub(
                HubNotification {
                    hub_property: Some(p),
                    hub_action: None,
                    hub_alert: None,
                    hub_error: None,
                },
            ),
        ),
        NotificationMessage::HubActions(a) => Some(
            Publication::Hub(
                HubNotification {
                    hub_property: None,
                    hub_action: Some(a),
                    hub_alert: None,
                    hub_error: None,
                },
            ),
        ),
        NotificationMessage::HubAlerts(a) => Some(
            Publication::Hub(
                HubNotification {
                    hub_property: None,
                    hub_action: None,
                    hub_alert: Some(a),
                    hub_error: None,
                },
            ),
        ),
        NotificationMessage::GenericErrorMessages(e) => Some(
            Publication::Hub(
                HubNotification {
                    hub_property: None,
                    hub_action: None,
                    hub_alert: None,
                    hub_error: Some(e),
                },
            ),
        ),
        _ => None,
    }
}

/// `frames` holds exactly the encodings of `msgs`, in order.
pub open spec fn frames_of(frames: Seq<Vec<u8>>, msgs: Seq<NotificationMessage>) -> bool {
    &&& frames.len() == msgs.len()
    &&& forall|i: int| 0 <= i < frames.len() ==> #[trigger] frames[i]@ == msgs[i].spec_encode()
}

fn mode_request_kind_exec(k: usize) -> (r: ModeInformationType)
    requires
        k < 8,
    ensures
        r == mode_request_kind(k as int),
{
    if k == 0 {
        ModeInformationType::Name
    } else if k == 1 {
        ModeInformationType::Raw
    } else if k == 2 {
        ModeInformationType::Pct
    } else if k == 3 {
        ModeInformationType::Si
    } else if k == 4 {
        ModeInformationType::Symbol
    } else if k == 5 {
        ModeInformationType::Mapping
    } else if k == 6 {
        ModeInformationType::MotorBias
    } else {
        ModeInformationType::ValueFormat
    }
}

/// The frames of all per-mode requests for a port with `n` modes.
pub fn build_mode_requests(port: u8, n: u8) -> (r: Vec<Vec<u8>>)
    ensures
        frames_of(r@, mode_requests(port, n)),
{
    let total: usize = 8 * (n as usize);
    let mut r: Vec<Vec<u8>> = Vec::new();
    let mut i: usize = 0;
    while i < total
        invariant
            total == 8 * n,
            i <= total,
            r@.len() == i,
            forall|j: int| 0 <= j < i ==> #[trigger] r@[j]@ == mode_request(port, j).spec_encode(),
        decreases total - i,
    {
        let m = NotificationMessage::PortModeInformationRequest(
            ModeInformationRequest {
                port_id: port,
                mode: (i / 8) as u8,
                information_type: mode_request_kind_exec(i % 8),
            },
        );
        assert(m == mode_request(port, i as int));
        let f = m.encode();
        r.push(f);
        i = i + 1;
    }
    r
}

fn build_attach_requests(port: u8) -> (r: Vec<Vec<u8>>)
    ensures
        frames_of(r@, attach_requests(port)),
{
    let a = NotificationMessage::PortInformationRequest(
        InformationRequest { port_id: port, information_type: InformationType::ModeInfo },
    );
    let b = NotificationMessage::PortInformationRequest(
        InformationRequest {
            port_id: port,
            information_type: InformationType::PossibleModeCombinations,
        },
    );
    let mut r: Vec<Vec<u8>> = Vec::new();
    r.push(a.encode());
    r.push(b.encode());
    r
}

/// Applies one decoded message to the session and says what follows from it.
pub fn dispatch_message(session: &mut HubSession, m: NotificationMessage) -> (r: Dispatch)
    ensures
        final(session)@ == dispatch_state(old(session)@, m),
        frames_of(r.requests@, dispatch_requests(old(session)@, m)),
        r.publication == dispatch_publication(m),
{
    let ghost s = session@;
    let ghost m0 = m;
    match m {
        NotificationMessage::HubAttachedIo(AttachedIo { port, event }) => {
            match event {
                IoAttachEvent::AttachedIo { io_type_id, .. } => {
                    session.put_io(port, IoDevice::new(IoTypeId::from_code(io_type_id), port));
                    Dispatch { requests: build_attach_requests(port), publication: None }
                },
                IoAttachEvent::AttachedVirtualIo { io_type_id, port_a, port_b } => {
                    session.put_io(
                        port,
                        IoDevice::new_virtual(IoTypeId::from_code(io_type_id), port, port_a, port_b),
                    );
                    Dispatch { requests: build_attach_requests(port), publication: None }
                },
                IoAttachEvent::DetachedIo => {
                    session.detach_io(port);
                    Dispatch { requests: Vec::new(), publication: None }
                },
            }
        },
        NotificationMessage::PortInformation(PortInformationValue { port_id, information_type }) => {
            match session.take_io(port_id) {
                Some(mut d) => {
                    let requests = match information_type {
                        PortInformationType::ModeInfo {
                            capabilities,
                            mode_count,
                            input_modes,
                            output_modes,
                        } => {
                            d.set_mode_info(capabilities, mode_count, input_modes, output_modes);
                            build_mode_requests(port_id, mode_count)
                        },
                        PortInformationType::PossibleModeCombinations(c) => {
                            d.set_valid_combos(c);
                            Vec::new()
                        },
                    };
                    session.put_io(port_id, d);
                    proof {
                        assert(session@.io =~= dispatch_state(s, m0).io);
                    }
                    Dispatch { requests, publication: None }
                },
                None => {
                    proof {
                        assert(session@.io =~= s.io);
                    }
                    Dispatch { requests: Vec::new(), publication: None }
                },
            }
        },
        NotificationMessage::PortModeInformation(
            PortModeInformationValue { port_id, mode, information_type },
        ) => {
            match session.take_io(port_id) {
                Some(mut d) => {
                    d.set_mode_information(mode, information_type);
                    session.put_io(port_id, d);
                    proof {
                        assert(session@.io =~= dispatch_state(s, m0).io);
                    }
                },
                None => {
                    proof {
                        assert(session@.io =~= s.io);
                    }
                },
            }
            Dispatch { requests: Vec::new(), publication: None }
        },
        NotificationMessage::PortValueSingle(v) => Dispatch {
            requests: Vec::new(),
            publication: Some(Publication::SingleValue(v)),
        },
        NotificationMessage::PortValueCombined(v) => Dispatch {
            requests: Vec::new(),
            publication: Some(Publication::CombinedValue(v)),
        },
        NotificationMessage::HwNetworkCommands(c) => Dispatch {
            requests: Vec::new(),
            publication: Some(Publication::NetworkCommand(c)),
        },
        NotificationMessage::HubProperties(p) => {
            session.apply_property(&p);
            Dispatch {
                requests: Vec::new(),
                publication: Some(
                    Publication::Hub(
                        HubNotification {
                            hub_property: Some(p),
                            hub_action: None,
                            hub_alert: None,
                            hub_error: None,
                        },
                    ),
                ),
            }
        },
        NotificationMessage::HubActions(a) => Dispatch {
            requests: Vec::new(),
            publication: Some(
                Publication::Hub(
                    HubNotification {
                        hub_property: None,
                        hub_action: Some(a),
                        hub_alert: None,
                        hub_error: None,
                    },
                ),
            ),
        },
        NotificationMessage::HubAlerts(a) => Dispatch {
            requests: Vec::new(),
            publication: Some(
                Publication::Hub(
                    HubNotification {
                        hub_property: None,
                        hub_action: None,
                        hub_alert: Some(a),
                        hub_error: None,
                    },
                ),
            ),
        },
        NotificationMessage::GenericErrorMessages(e) => Dispatch {
            requests: Vec::new(),
            publication: Some(
                Publication::Hub(
                    HubNotification {
                        hub_property: None,
                        hub_action: None,
                        hub_alert: None,
                        hub_error: Some(e),
                    },
                ),
            ),
        },
        _ => Dispatch { requests: Vec::new(), publication: None },
    }
}

/// Handles one raw frame from the transport: a frame that decodes is handled as the message
/// it encodes; one that does not is dropped, leaving the session unchanged with nothing to
/// write or publish.
pub fn dispatch_frame(session: &mut HubSession, frame: &[u8]) -> (r: Dispatch)
    ensures
        frame_ok(frame@) ==> exists|m: NotificationMessage|
            #[trigger] m.spec_encode() == frame@.take(declared_len(frame@)) && final(session)@
                == dispatch_state(old(session)@, m) && frames_of(
                r.requests@,
                dispatch_requests(old(session)@, m),
            ) && r.publication == dispatch_publication(m),
        !frame_ok(frame@) ==> final(session)@ == old(session)@ && r.requests@.len() == 0
            && r.publication is None,
{
    match decode(frame) {
        Ok(m) => {
            let ghost m0 = m;
            let r = dispatch_message(session, m);
            assert(m0.spec_encode() == frame@.take(declared_len(frame@)));
            r
        },
        Err(_) => Dispatch { requests: Vec::new(), publication: None },
    }
}

/// An attach followed by the port's mode-info reply reporting `n` modes issues exactly
/// 2 + 8n requests: the two port-information requests, then the eight per-mode requests of
/// each mode in the fixed order, modes ascending, with no request repeated.
pub proof fn lemma_handshake_fan_out(
    s: HubSessionView,
    port: u8,
    io_type_id: u16,
    hw_rev: u32,
    fw_rev: u32,
    capabilities: u8,
    n: u8,
    input_modes: u16,
    output_modes: u16,
)
    ensures
        ({
            let attach = NotificationMessage::HubAttachedIo(
                AttachedIo { port, event: IoAttachEvent::AttachedIo { io_type_id, hw_rev, fw_rev } },
            );
            let reply = NotificationMessage::PortInformation(
                PortInformationValue {
                    port_id: port,
                    information_type: PortInformationType::ModeInfo {
                        capabilities,
                        mode_count: n,
                        input_modes,
                        output_modes,
                    },
                },
            );
            let all = dispatch_requests(s, attach) + dispatch_requests(
                dispatch_state(s, attach),
                reply,
            );
            &&& all.len() == 2 + 8 * n
            &&& all.subrange(0, 2) == attach_requests(port)
            &&& forall|i: int| 0 <= i < 8 * n ==> #[trigger] all[2 + i] == mode_request(port, i)
            &&& forall|i: int, j: int| 0 <= i < j < all.len() ==> all[i] != all[j]
        }),
{
    let attach = NotificationMessage::HubAttachedIo(
        AttachedIo { port, event: IoAttachEvent::AttachedIo { io_type_id, hw_rev, fw_rev } },
    );
    let reply = NotificationMessage::PortInformation(
        PortInformationValue {
            port_id: port,
            information_type: PortInformationType::ModeInfo {
                capabilities,
                mode_count: n,
                input_modes,
                output_modes,
            },
        },
    );
    let s1 = dispatch_state(s, attach);
    assert(s1.io.contains_key(port));
    let all = dispatch_requests(s, attach) + dispatch_requests(s1, reply);
    assert(all.subrange(0, 2) =~= attach_requests(port));
    assert forall|i: int, j: int| 0 <= i < j < all.len() implies all[i] != all[j] by {
        if i >= 2 {
            lemma_mode_requests_distinct(port, i - 2, j - 2);
        }
    }
}

proof fn lemma_mode_requests_distinct(port: u8, i: int, j: int)
    requires
        0 <= i < j < 8 * 256,
    ensures
        mode_request(port, i) != mode_request(port, j),
{
    if i / 8 == j / 8 {
        assert(i % 8 != j % 8);
    } else {
        assert((i / 8) as u8 != (j / 8) as u8);
    }
}

/// After a detach, a per-mode reply or a port-information reply for that port changes
/// nothing, issues nothing and does not bring the record back.
pub proof fn lemma_reply_after_detach(
    s: HubSessionView,
    port: u8,
    reply: NotificationMessage,
)
    requires
        (reply matches NotificationMessage::PortModeInformation(v) && v.port_id == port)
            || (reply matches NotificationMessage::PortInformation(v) && v.port_id == port),
    ensures
        ({
            let detach = NotificationMessage::HubAttachedIo(
                AttachedIo { port, event: IoAttachEvent::DetachedIo },
            );
            let s1 = dispatch_state(s, detach);
            &&& !s1.io.contains_key(port)
            &&& dispatch_state(s1, reply) == s1
            &&& dispatch_requests(s1, reply).len() == 0
        }),
{
}

/// Telemetry never touches the session nor issues requests: the dispatcher only hands it on.
pub proof fn lemma_telemetry_only_published(s: HubSessionView, m: NotificationMessage)
    requires
        m is PortValueSingle || m is PortValueCombined || m is HwNetworkCommands,
    ensures
        dispatch_state(s, m) == s,
        dispatch_requests(s, m).len() == 0,
        dispatch_publication(m) is Some,
{
}

/// The port that a request addresses.
pub open spec fn request_port(m: NotificationMessage) -> Option<u8> {
    match m {
        NotificationMessage::PortInformationRequest(r) => Some(r.port_id),
        NotificationMessage::PortModeInformationRequest(r) => Some(r.port_id),
        _ => None,
    }
}

/// The port that a received message is about, if any.
pub open spec fn message_port(m: NotificationMessage) -> Option<u8> {
    match m {
        NotificationMessage::HubAttachedIo(a) => Some(a.port),
        NotificationMessage::PortInformation(v) => Some(v.port_id),
        NotificationMessage::PortModeInformation(v) => Some(v.port_id),
        _ => None,
    }
}

/// The requests among `reqs` that address port `p`, in order.
pub open spec fn requests_for(reqs: Seq<NotificationMessage>, p: u8) -> Seq<NotificationMessage>
    decreases reqs.len(),
{
    if reqs.len() == 0 {
        Seq::empty()
    } else {
        let rest = requests_for(reqs.drop_last(), p);
        if request_port(reqs.last()) == Some(p) {
            rest.push(reqs.last())
        } else {
            rest
        }
    }
}

/// One step of `run_state`, kept opaque so that reasoning about runs does not unfold it.
#[verifier::opaque]
pub open spec fn step_state(s: HubSessionView, m: NotificationMessage) -> HubSessionView {
    dispatch_state(s, m)
}

/// One step of `run_requests`, kept opaque likewise.
#[verifier::opaque]
pub open spec fn step_requests(s: HubSessionView, m: NotificationMessage) -> Seq<NotificationMessage> {
    dispatch_requests(s, m)
}

/// The session after the dispatcher handled `ms` in order.
pub open spec fn run_state(s: HubSessionView, ms: Seq<NotificationMessage>) -> HubSessionView
    decreases ms.len(),
{
    if ms.len() == 0 {
        s
    } else {
        step_state(run_state(s, ms.drop_last()), ms.last())
    }
}

/// All requests that the dispatcher issues while handling `ms` in order.
pub open spec fn run_requests(s: HubSessionView, ms: Seq<NotificationMessage>) -> Seq<
    NotificationMessage,
>
    decreases ms.len(),
{
    if ms.len() == 0 {
        Seq::empty()
    } else {
        run_requests(s, ms.drop_last()) + step_requests(run_state(s, ms.drop_last()), ms.last())
    }
}

proof fn lemma_requests_for_concat(a: Seq<NotificationMessage>, b: Seq<NotificationMessage>, p: u8)
    ensures
        requests_for(a + b, p) == requests_for(a, p) + requests_for(b, p),
    decreases b.len(),
{
    if b.len() == 0 {
        assert(a + b =~= a);
        assert(requests_for(a, p) + requests_for(b, p) =~= requests_for(a, p));
    } else {
        assert((a + b).drop_last() =~= a + b.drop_last());
        assert((a + b).last() == b.last());
        lemma_requests_for_concat(a, b.drop_last(), p);
        if request_port(b.last()) == Some(p) {
            assert(requests_for(a, p) + requests_for(b.drop_last(), p).push(b.last())
                =~= (requests_for(a, p) + requests_for(b.drop_last(), p)).push(b.last()));
        }
    }
}

proof fn lemma_requests_for_none(reqs: Seq<NotificationMessage>, p: u8)
    requires
        forall|i: int| 0 <= i < reqs.len() ==> request_port(#[trigger] reqs[i]) != Some(p),
    ensures
        requests_for(reqs, p) == Seq::<NotificationMessage>::empty(),
    decreases reqs.len(),
{
    if reqs.len() > 0 {
        lemma_requests_for_none(reqs.drop_last(), p);
        assert(request_port(reqs[reqs.len() - 1]) != Some(p));
    }
}

proof fn lemma_requests_for_all(reqs: Seq<NotificationMessage>, p: u8)
    requires
        forall|i: int| 0 <= i < reqs.len() ==> request_port(#[trigger] reqs[i]) == Some(p),
    ensures
        requests_for(reqs, p) == reqs,
    decreases reqs.len(),
{
    if reqs.len() > 0 {
        lemma_requests_for_all(reqs.drop_last(), p);
        assert(request_port(reqs[reqs.len() - 1]) == Some(p));
        assert(reqs.drop_last().push(reqs.last()) =~= reqs);
    } else {
        assert(reqs =~= Seq::<NotificationMessage>::empty());
    }
}

proof fn lemma_run_concat(s: HubSessionView, a: Seq<NotificationMessage>, b: Seq<NotificationMessage>)
    ensures
        run_state(s, a + b) == run_state(run_state(s, a), b),
        run_requests(s, a + b) == run_requests(s, a) + run_requests(run_state(s, a), b),
    decreases b.len(),
{
    if b.len() == 0 {
        assert(a + b =~= a);
        assert(run_requests(s, a) + run_requests(run_state(s, a), b) =~= run_requests(s, a));
    } else {
        assert((a + b).drop_last() =~= a + b.drop_last());
        assert((a + b).last() == b.last());
        lemma_run_concat(s, a, b.drop_last());
        assert(run_requests(s, a + b) =~= run_requests(s, a) + run_requests(run_state(s, a), b));
    }
}

/// A message about another port leaves port `p`'s presence alone and addresses no request
/// to `p`.
proof fn lemma_other_port_step(s: HubSessionView, m: NotificationMessage, p: u8)
    requires
        message_port(m) != Some(p),
    ensures
        step_state(s, m).io.contains_key(p) == s.io.contains_key(p),
        forall|i: int|
            0 <= i < step_requests(s, m).len() ==> request_port(#[trigger] step_requests(s, m)[i])
                != Some(p),
{
    reveal(step_state);
    reveal(step_requests);
}

proof fn lemma_attach_step(s: HubSessionView, m: NotificationMessage, p: u8)
    requires
        m matches NotificationMessage::HubAttachedIo(a) && a.port == p && a.event is AttachedIo,
    ensures
        step_state(s, m).io.contains_key(p),
        step_requests(s, m) == attach_requests(p),
{
    reveal(step_state);
    reveal(step_requests);
}

proof fn lemma_reply_step(s: HubSessionView, m: NotificationMessage, p: u8, n: u8)
    requires
        s.io.contains_key(p),
        m == NotificationMessage::PortInformation(
            PortInformationValue {
                port_id: p,
                information_type: PortInformationType::ModeInfo {
                    capabilities: m->PortInformation_0.information_type->capabilities,
                    mode_count: n,
                    input_modes: m->PortInformation_0.information_type->input_modes,
                    output_modes: m->PortInformation_0.information_type->output_modes,
                },
            },
        ),
    ensures
        step_requests(s, m) == mode_requests(p, n),
{
    reveal(step_requests);
}

proof fn lemma_other_ports(s: HubSessionView, ms: Seq<NotificationMessage>, p: u8)
    requires
        forall|i: int| 0 <= i < ms.len() ==> message_port(#[trigger] ms[i]) != Some(p),
    ensures
        run_state(s, ms).io.contains_key(p) == s.io.contains_key(p),
        requests_for(run_requests(s, ms), p) == Seq::<NotificationMessage>::empty(),
    decreases ms.len(),
{
    if ms.len() > 0 {
        let prev = ms.drop_last();
        assert forall|i: int| 0 <= i < prev.len() implies message_port(#[trigger] prev[i]) != Some(
            p,
        ) by {
            assert(prev[i] == ms[i]);
        }
        lemma_other_ports(s, prev, p);
        assert(message_port(ms[ms.len() - 1]) != Some(p));
        lemma_other_port_step(run_state(s, prev), ms.last(), p);
        lemma_requests_for_none(step_requests(run_state(s, prev), ms.last()), p);
        lemma_requests_for_concat(
            run_requests(s, prev),
            step_requests(run_state(s, prev), ms.last()),
            p,
        );
        assert(Seq::<NotificationMessage>::empty() + Seq::<NotificationMessage>::empty()
            =~= Seq::<NotificationMessage>::empty());
    }
}

/// The handshake of a port with events about other ports in between: over an attach of
/// `p`, any events about other ports, the mode-info reply of `p` reporting `n` modes, and
/// any further events about other ports, the requests that address `p` are exactly the two
/// port-information requests followed by the 8n per-mode requests in the fixed order.
pub proof fn lemma_handshake_fan_out_interleaved(
    s: HubSessionView,
    p: u8,
    io_type_id: u16,
    hw_rev: u32,
    fw_rev: u32,
    capabilities: u8,
    n: u8,
    input_modes: u16,
    output_modes: u16,
    before_reply: Seq<NotificationMessage>,
    after_reply: Seq<NotificationMessage>,
)
    requires
        forall|i: int|
            0 <= i < before_reply.len() ==> message_port(#[trigger] before_reply[i]) != Some(p),
        forall|i: int|
            0 <= i < after_reply.len() ==> message_port(#[trigger] after_reply[i]) != Some(p),
    ensures
        ({
            let attach = NotificationMessage::HubAttachedIo(
                AttachedIo { port: p, event: IoAttachEvent::AttachedIo { io_type_id, hw_rev, fw_rev } },
            );
            let reply = NotificationMessage::PortInformation(
                PortInformationValue {
                    port_id: p,
                    information_type: PortInformationType::ModeInfo {
                        capabilities,
                        mode_count: n,
                        input_modes,
                        output_modes,
                    },
                },
            );
            let ms = seq![attach] + before_reply + seq![reply] + after_reply;
            let sent = requests_for(run_requests(s, ms), p);
            &&& sent == attach_requests(p) + mode_requests(p, n)
            &&& sent.len() == 2 + 8 * n
        }),
{
    let attach = NotificationMessage::HubAttachedIo(
        AttachedIo { port: p, event: IoAttachEvent::AttachedIo { io_type_id, hw_rev, fw_rev } },
    );
    let reply = NotificationMessage::PortInformation(
        PortInformationValue {
            port_id: p,
            information_type: PortInformationType::ModeInfo {
                capabilities,
                mode_count: n,
                input_modes,
                output_modes,
            },
        },
    );
    let a = seq![attach];
    let ms1 = a + before_reply;
    let ms2 = ms1 + seq![reply];
    let ms = ms2 + after_reply;
    lemma_run_concat(s, ms2, after_reply);
    lemma_run_concat(s, ms1, seq![reply]);
    lemma_run_concat(s, a, before_reply);
    assert(a.drop_last() =~= Seq::<NotificationMessage>::empty());
    let s1 = run_state(s, a);
    lemma_attach_step(s, attach, p);
    assert(a.last() == attach);
    assert(run_state(s, a.drop_last()) == s);
    assert(run_requests(s, a.drop_last()) == Seq::<NotificationMessage>::empty());
    assert(s1 == step_state(s, attach));
    assert(run_requests(s, a) =~= attach_requests(p));
    lemma_other_ports(s1, before_reply, p);
    let s2 = run_state(s, ms1);
    assert(s2.io.contains_key(p));
    assert(seq![reply].drop_last() =~= Seq::<NotificationMessage>::empty());
    lemma_reply_step(s2, reply, p, n);
    assert(seq![reply].last() == reply);
    assert(run_state(s2, seq![reply].drop_last()) == s2);
    assert(run_requests(s2, seq![reply].drop_last()) == Seq::<NotificationMessage>::empty());
    assert(run_requests(s2, seq![reply]) =~= mode_requests(p, n));
    let s3 = run_state(s, ms2);
    lemma_other_ports(s3, after_reply, p);
    lemma_requests_for_all(attach_requests(p), p);
    lemma_requests_for_all(mode_requests(p, n), p);
    lemma_requests_for_concat(run_requests(s, ms1) + mode_requests(p, n), run_requests(s3, after_reply), p);
    lemma_requests_for_concat(run_requests(s, ms1), mode_requests(p, n), p);
    lemma_requests_for_concat(attach_requests(p), run_requests(s1, before_reply), p);
    let sent = requests_for(run_requests(s, ms), p);
    assert(sent =~= attach_requests(p) + mode_requests(p, n));
}

} // verus!
