//! The scan controller: a discovery session of bounded length. It subscribes to the
//! heartbeats of all devices, takes note of each device that reports, and stops once
//! the configured time has passed.
//!
//! The controller decides; its caller acts. The caller hands over each event of the
//! outside world with [`ScanController::step`] and carries out the action that
//! comes back.

use vstd::prelude::*;
use crate::duration::{breakdown_of, convert_millis_to_hms};
use crate::heartbeat::{parse_uptime, uptime_value};
use crate::message::{
    subscription_to, Inbound, InboundModel, ProtocolViolation, Subscription, SubscriptionModel,
    ViolationModel,
};
use crate::registry::{
    observed, sighting, DeviceRecord, DeviceRegistry, SightingKind,
};
use crate::text::decode_lossy;
use crate::topic::{device_of_topic, device_segment, heartbeat_filter, heartbeat_topic};

verus! {

/// Where a scan stands.
#[derive(Clone, Copy, Debug, PartialEq, Eq, Structural)]
pub enum ScanPhase {
    /// Nothing has been asked of the transport yet.
    Idle,
    /// The subscription to the heartbeats has been asked for.
    Subscribed,
    /// The clock runs and messages are taken.
    Scanning,
    /// The scan is over. Nothing leads out of this phase.
    Finished,
}

/// Why a scan ended without a fault.
#[derive(Clone, Copy, Debug, PartialEq, Eq, Structural)]
pub enum FinishReason {
    /// A message came when the configured time had passed.
    TimeLimitReached,
    /// The transport has no more messages.
    StreamEnded,
}

/// What the caller reports to the controller.
#[derive(Debug, PartialEq, Eq)]
pub enum ScanEvent {
    /// The scan is to begin.
    Begin,
    /// The subscription that the controller asked for is in place.
    Subscribed,
    /// The transport delivered `inbound`, `elapsed_s` whole seconds after the clock
    /// was started.
    Message { elapsed_s: u64, inbound: Inbound },
    /// The transport has no more messages.
    StreamEnded,
}

/// A [`ScanEvent`] as the rules see it.
pub enum ScanEventModel {
    Begin,
    Subscribed,
    Message { elapsed_s: u64, inbound: InboundModel },
    StreamEnded,
}

impl View for ScanEvent {
    type V = ScanEventModel;

    open spec fn view(&self) -> ScanEventModel {
        match *self {
            ScanEvent::Begin => ScanEventModel::Begin,
            ScanEvent::Subscribed => ScanEventModel::Subscribed,
            ScanEvent::Message { elapsed_s, inbound } => ScanEventModel::Message {
                elapsed_s,
                inbound: inbound@,
            },
            ScanEvent::StreamEnded => ScanEventModel::StreamEnded,
        }
    }
}

/// A device that was seen for the first time, with its uptime as reported and as
/// days, hours, minutes and seconds.
#[derive(Debug, PartialEq, Eq)]
pub struct Discovery {
    pub device: String,
    pub uptime: u32,
    pub days: u64,
    pub hours: u64,
    pub minutes: u64,
    pub seconds: u64,
}

/// A [`Discovery`] as plain values.
pub struct DiscoveryModel {
    pub device: Seq<char>,
    pub uptime: u32,
    pub breakdown: (u64, u64, u64, u64),
}

impl View for Discovery {
    type V = DiscoveryModel;

    open spec fn view(&self) -> DiscoveryModel {
        DiscoveryModel {
            device: self.device@,
            uptime: self.uptime,
            breakdown: (self.days, self.hours, self.minutes, self.seconds),
        }
    }
}

/// What the controller asks of its caller.
#[derive(Debug, PartialEq, Eq)]
pub enum ScanAction {
    /// Subscribe to the heartbeats of all devices.
    Subscribe(Subscription),
    /// Start the clock by which `elapsed_s` is measured, and begin to take messages.
    StartClock,
    /// Nothing to show; take the next message.
    Continue,
    /// Tell the operator of a device seen for the first time; take the next message.
    Announce(Discovery),
    /// The scan is over; take no more messages.
    Finish(FinishReason),
    /// The message broke the protocol; the scan is over.
    Abort(ProtocolViolation),
    /// The event has no place in the phase the scan is in; nothing has changed.
    Rejected,
}

/// A [`ScanAction`] as plain values.
pub enum ScanActionModel {
    Subscribe(SubscriptionModel),
    StartClock,
    Continue,
    Announce(DiscoveryModel),
    Finish(FinishReason),
    Abort(ViolationModel),
    Rejected,
}

impl View for ScanAction {
    type V = ScanActionModel;

    open spec fn view(&self) -> ScanActionModel {
        match *self {
            ScanAction::Subscribe(subscription) => ScanActionModel::Subscribe(subscription@),
            ScanAction::StartClock => ScanActionModel::StartClock,
            ScanAction::Continue => ScanActionModel::Continue,
            ScanAction::Announce(discovery) => ScanActionModel::Announce(discovery@),
            ScanAction::Finish(reason) => ScanActionModel::Finish(reason),
            ScanAction::Abort(violation) => ScanActionModel::Abort(violation@),
            ScanAction::Rejected => ScanActionModel::Rejected,
        }
    }
}

/// The state of a scan as plain values: the root topic, the length of the scan in
/// seconds, the phase, and the entries of the registry.
pub struct ScanModel {
    pub root: Seq<char>,
    pub limit_s: u64,
    pub phase: ScanPhase,
    pub devices: Seq<DeviceRecord>,
}

/// A scan that has not begun.
pub open spec fn initial_scan(root: Seq<char>, limit_s: u64) -> ScanModel {
    ScanModel { root, limit_s, phase: ScanPhase::Idle, devices: Seq::empty() }
}

/// `scan` in another phase.
pub open spec fn in_phase(scan: ScanModel, phase: ScanPhase) -> ScanModel {
    ScanModel { root: scan.root, limit_s: scan.limit_s, phase, devices: scan.devices }
}

/// What a heartbeat says: the device, named by the second segment of the topic, and
/// its uptime, stated by the payload. A topic without a second segment is a
/// violation, and so is a payload that states no uptime.
pub open spec fn heartbeat_reading(topic: Seq<char>, text: Seq<char>) -> Result<
    DeviceRecord,
    ViolationModel,
> {
    match device_segment(topic) {
        None => Err(ViolationModel::TopicWithoutDevice { topic }),
        Some(name) => match uptime_value(text) {
            None => Err(ViolationModel::UptimeNotANumber { payload: text }),
            Some(uptime) => Ok(DeviceRecord { name, uptime }),
        },
    }
}

/// What a heartbeat does to a scan that takes messages: a violation ends the scan;
/// otherwise the registry takes note of the device, and a first sighting is
/// announced.
pub open spec fn heartbeat_step(scan: ScanModel, topic: Seq<char>, text: Seq<char>) -> (
    ScanModel,
    ScanActionModel,
) {
    match heartbeat_reading(topic, text) {
        Err(violation) => (in_phase(scan, ScanPhase::Finished), ScanActionModel::Abort(violation)),
        Ok(device) => (
            ScanModel {
                root: scan.root,
                limit_s: scan.limit_s,
                phase: scan.phase,
                devices: observed(scan.devices, device.name, device.uptime),
            },
            match sighting(scan.devices, device.name) {
                SightingKind::FirstSighting => ScanActionModel::Announce(
                    DiscoveryModel {
                        device: device.name,
                        uptime: device.uptime,
                        breakdown: breakdown_of(device.uptime),
                    },
                ),
                SightingKind::Update => ScanActionModel::Continue,
            },
        ),
    }
}

/// What a message does to a scan that takes messages. The clock is read first: once
/// the configured time has passed the scan is over and the message is dropped.
pub open spec fn message_step(scan: ScanModel, elapsed_s: u64, inbound: InboundModel) -> (
    ScanModel,
    ScanActionModel,
) {
    if elapsed_s >= scan.limit_s {
        (
            in_phase(scan, ScanPhase::Finished),
            ScanActionModel::Finish(FinishReason::TimeLimitReached),
        )
    } else {
        match inbound {
            InboundModel::Other => (scan, ScanActionModel::Continue),
            InboundModel::Publish { topic, text } => heartbeat_step(scan, topic, text),
        }
    }
}

/// The scan after `event`, and what the caller is to do.
pub open spec fn scan_step(scan: ScanModel, event: ScanEventModel) -> (ScanModel, ScanActionModel) {
    match (scan.phase, event) {
        (ScanPhase::Idle, ScanEventModel::Begin) => (
            in_phase(scan, ScanPhase::Subscribed),
            ScanActionModel::Subscribe(subscription_to(heartbeat_filter(scan.root))),
        ),
        (ScanPhase::Subscribed, ScanEventModel::Subscribed) => (
            in_phase(scan, ScanPhase::Scanning),
            ScanActionModel::StartClock,
        ),
        (ScanPhase::Scanning, ScanEventModel::Message { elapsed_s, inbound }) => message_step(
            scan,
            elapsed_s,
            inbound,
        ),
        (ScanPhase::Scanning, ScanEventModel::StreamEnded) => (
            in_phase(scan, ScanPhase::Finished),
            ScanActionModel::Finish(FinishReason::StreamEnded),
        ),
        _ => (scan, ScanActionModel::Rejected),
    }
}

/// The scan after a run of events, each taken in turn.
pub open spec fn scan_run(scan: ScanModel, events: Seq<ScanEventModel>) -> ScanModel
    decreases events.len(),
{
    if events.len() == 0 {
        scan
    } else {
        scan_step(scan_run(scan, events.drop_last()), events.last()).0
    }
}

/// What the caller was asked to do at each event of a run.
pub open spec fn scan_actions(scan: ScanModel, events: Seq<ScanEventModel>) -> Seq<ScanActionModel>
    decreases events.len(),
{
    if events.len() == 0 {
        Seq::empty()
    } else {
        scan_actions(scan, events.drop_last()).push(
            scan_step(scan_run(scan, events.drop_last()), events.last()).1,
        )
    }
}

/// The event of a message, `elapsed_s` whole seconds after the clock was started.
pub open spec fn message_event(elapsed_s: u64, inbound: InboundModel) -> ScanEventModel {
    ScanEventModel::Message { elapsed_s, inbound }
}

/// The event of a heartbeat on `topic` whose payload decodes to `text`.
pub open spec fn heartbeat_event(elapsed_s: u64, topic: Seq<char>, text: Seq<char>) -> ScanEventModel {
    message_event(elapsed_s, InboundModel::Publish { topic, text })
}

/// Whether an event is a published message that came before `limit_s` seconds had
/// passed.
pub open spec fn is_in_time(event: ScanEventModel, limit_s: u64) -> bool {
    event matches ScanEventModel::Message { elapsed_s, inbound } && elapsed_s < limit_s
        && inbound is Publish
}

/// Whether an event is a message that came when `limit_s` seconds or more had passed.
pub open spec fn is_late(event: ScanEventModel, limit_s: u64) -> bool {
    event matches ScanEventModel::Message { elapsed_s, .. } && elapsed_s >= limit_s
}

/// No event changes the root topic or the length of a scan, and none leads back to an
/// earlier phase.
pub proof fn lemma_step_keeps_settings(scan: ScanModel, event: ScanEventModel)
    ensures
        scan_step(scan, event).0.root == scan.root,
        scan_step(scan, event).0.limit_s == scan.limit_s,
        scan.phase == ScanPhase::Scanning ==> scan_step(scan, event).0.phase == ScanPhase::Scanning
            || scan_step(scan, event).0.phase == ScanPhase::Finished,
        scan.phase == ScanPhase::Finished ==> scan_step(scan, event) == (
            scan,
            ScanActionModel::Rejected,
        ),
{
}

/// The registry changes only when a published message is taken in the scanning
/// phase before the configured time has passed; only then is a device announced.
pub proof fn lemma_registry_changes_only_in_time(scan: ScanModel, event: ScanEventModel)
    ensures
        scan_step(scan, event).0.devices != scan.devices || scan_step(scan, event).1 is Announce
            ==> scan.phase == ScanPhase::Scanning && is_in_time(event, scan.limit_s),
{
}

/// A message that comes when the configured time has passed is not processed: the
/// registry stays as it is, nothing is announced, and a scan that was taking
/// messages is over.
pub proof fn lemma_late_message_is_dropped(scan: ScanModel, elapsed_s: u64, inbound: InboundModel)
    requires
        elapsed_s >= scan.limit_s,
    ensures
        scan_step(scan, message_event(elapsed_s, inbound)).0.devices == scan.devices,
        !(scan_step(scan, message_event(elapsed_s, inbound)).1 is Announce),
        scan.phase == ScanPhase::Scanning ==> scan_step(scan, message_event(elapsed_s, inbound)) == (
            in_phase(scan, ScanPhase::Finished),
            ScanActionModel::Finish(FinishReason::TimeLimitReached),
        ),
{
}

/// Once a scan is over, no run of events changes it.
pub proof fn lemma_finished_is_terminal(scan: ScanModel, events: Seq<ScanEventModel>)
    requires
        scan.phase == ScanPhase::Finished,
    ensures
        scan_run(scan, events) == scan,
    decreases events.len(),
{
    if events.len() > 0 {
        lemma_finished_is_terminal(scan, events.drop_last());
    }
}

/// A run of events can be taken in two parts.
pub proof fn lemma_run_in_parts(scan: ScanModel, events: Seq<ScanEventModel>, k: int)
    requires
        0 <= k <= events.len(),
    ensures
        scan_run(scan, events) == scan_run(scan_run(scan, events.take(k)), events.skip(k)),
    decreases events.len() - k,
{
    let head = events.take(k);
    let tail = events.skip(k);
    if k == events.len() {
        assert(head =~= events);
        assert(tail =~= Seq::<ScanEventModel>::empty());
    } else {
        lemma_run_in_parts(scan, events.drop_last(), k);
        assert(events.drop_last().take(k) =~= head);
        assert(events.drop_last().skip(k) =~= tail.drop_last());
        assert(tail.last() == events.last());
    }
}

/// In a scan that takes messages, nothing that follows a late message is processed:
/// the registry at the end of the run is the registry as it was when the late
/// message came, and the scan is over.
pub proof fn lemma_nothing_processed_after_limit(
    scan: ScanModel,
    events: Seq<ScanEventModel>,
    k: int,
)
    requires
        scan.phase == ScanPhase::Scanning,
        0 <= k < events.len(),
        is_late(events[k], scan.limit_s),
    ensures
        scan_run(scan, events).devices == scan_run(scan, events.take(k)).devices,
        scan_run(scan, events).phase == ScanPhase::Finished,
{
    let before = scan_run(scan, events.take(k));
    lemma_run_keeps_settings(scan, events.take(k));
    lemma_run_in_parts(scan, events, k);
    let tail = events.skip(k);
    lemma_run_in_parts(before, tail, 1);
    assert(tail.take(1) =~= seq![events[k]]);
    assert(tail.take(1).drop_last() =~= Seq::<ScanEventModel>::empty());
    let at = scan_run(before, tail.take(1));
    assert(at == scan_step(scan_run(before, tail.take(1).drop_last()), events[k]).0);
    assert(scan_run(before, tail.take(1).drop_last()) == before);
    lemma_step_keeps_settings(before, events[k]);
    assert(at.phase == ScanPhase::Finished);
    assert(at.devices == before.devices);
    lemma_finished_is_terminal(at, tail.skip(1));
}

/// A run of events leaves the root topic and the length of a scan as they were, and
/// a scan that takes messages is still taking them afterwards, or is over.
pub proof fn lemma_run_keeps_settings(scan: ScanModel, events: Seq<ScanEventModel>)
    ensures
        scan_run(scan, events).root == scan.root,
        scan_run(scan, events).limit_s == scan.limit_s,
        scan.phase == ScanPhase::Scanning ==> scan_run(scan, events).phase == ScanPhase::Scanning
            || scan_run(scan, events).phase == ScanPhase::Finished,
    decreases events.len(),
{
    if events.len() > 0 {
        lemma_run_keeps_settings(scan, events.drop_last());
        lemma_step_keeps_settings(scan_run(scan, events.drop_last()), events.last());
    }
}

/// A scan of length zero processes no message: whatever events come, its registry
/// stays empty and no device is announced.
pub proof fn lemma_zero_duration_processes_nothing(root: Seq<char>, events: Seq<ScanEventModel>)
    ensures
        scan_run(initial_scan(root, 0), events).devices == Seq::<DeviceRecord>::empty(),
        scan_actions(initial_scan(root, 0), events).len() == events.len(),
        forall|i: int|
            0 <= i < events.len() ==> !(#[trigger] scan_actions(initial_scan(root, 0), events)[i]
                is Announce),
    decreases events.len(),
{
    let start = initial_scan(root, 0);
    if events.len() > 0 {
        let earlier = events.drop_last();
        lemma_zero_duration_processes_nothing(root, earlier);
        let before = scan_run(start, earlier);
        lemma_run_keeps_settings(start, earlier);
        lemma_registry_changes_only_in_time(before, events.last());
        assert forall|i: int| 0 <= i < events.len() implies !(#[trigger] scan_actions(
            start,
            events,
        )[i] is Announce) by {
            if i < earlier.len() {
                assert(scan_actions(start, events)[i] == scan_actions(start, earlier)[i]);
            }
        }
    }
}

/// What was read from a heartbeat, as plain values.
pub open spec fn reading_of(reading: Result<(String, u32), ProtocolViolation>) -> Result<
    DeviceRecord,
    ViolationModel,
> {
    match reading {
        Ok((name, uptime)) => Ok(DeviceRecord { name: name@, uptime }),
        Err(violation) => Err(violation@),
    }
}

/// Reads a heartbeat: the device that the topic names and the uptime that the text
/// of the payload states.
pub fn read_heartbeat(topic: &str, text: &str) -> (reading: Result<(String, u32), ProtocolViolation>)
    ensures
        reading_of(reading) == heartbeat_reading(topic@, text@),
{
    match device_of_topic(topic) {
        None => Err(ProtocolViolation::TopicWithoutDevice { topic: topic.to_owned() }),
        Some(name) => match parse_uptime(text) {
            None => Err(ProtocolViolation::UptimeNotANumber { payload: text.to_owned() }),
            Some(uptime) => Ok((name, uptime)),
        },
    }
}

/// A discovery session: the registry of the devices seen, and the phase that decides
/// which events are taken.
pub struct ScanController {
    root: String,
    limit_s: u64,
    phase: ScanPhase,
    registry: DeviceRegistry,
}

impl View for ScanController {
    type V = ScanModel;

    closed spec fn view(&self) -> ScanModel {
        ScanModel {
            root: self.root@,
            limit_s: self.limit_s,
            phase: self.phase,
            devices: self.registry@,
        }
    }
}

impl ScanController {
    /// A scan under the root topic `root` that lasts `duration_s` seconds, not yet
    /// begun.
    pub fn new(root: &str, duration_s: u64) -> (scan: Self)
        ensures
            scan@ == initial_scan(root@, duration_s),
    {
        ScanController {
            root: root.to_owned(),
            limit_s: duration_s,
            phase: ScanPhase::Idle,
            registry: DeviceRegistry::new(),
        }
    }

    /// The phase that the scan is in.
    pub fn phase(&self) -> (phase: ScanPhase)
        ensures
            phase == self@.phase,
    {
        self.phase
    }

    /// Whether the scan is over.
    pub fn is_finished(&self) -> (finished: bool)
        ensures
            finished == (self@.phase == ScanPhase::Finished),
    {
        self.phase == ScanPhase::Finished
    }

    /// The length of the scan in seconds.
    pub fn duration_s(&self) -> (limit: u64)
        ensures
            limit == self@.limit_s,
    {
        self.limit_s
    }

    /// The devices seen so far.
    pub fn registry(&self) -> (registry: &DeviceRegistry)
        ensures
            registry@ == self@.devices,
    {
        &self.registry
    }

    /// Takes a heartbeat whose payload has been decoded to `text`, `elapsed_s` whole
    /// seconds after the clock was started.
    pub fn on_heartbeat(&mut self, elapsed_s: u64, topic: &str, text: &str) -> (action: ScanAction)
        ensures
            (final(self)@, action@) == scan_step(
                old(self)@,
                heartbeat_event(elapsed_s, topic@, text@),
            ),
    {
        if self.phase != ScanPhase::Scanning {
            return ScanAction::Rejected;
        }
        if elapsed_s >= self.limit_s {
            self.phase = ScanPhase::Finished;
            return ScanAction::Finish(FinishReason::TimeLimitReached);
        }
        match read_heartbeat(topic, text) {
            Err(violation) => {
                self.phase = ScanPhase::Finished;
                ScanAction::Abort(violation)
            },
            Ok((name, uptime)) => {
                match self.registry.observe(name.as_str(), uptime) {
                    SightingKind::FirstSighting => {
                        let (days, hours, minutes, seconds) = convert_millis_to_hms(uptime);
                        ScanAction::Announce(
                            Discovery { device: name, uptime, days, hours, minutes, seconds },
                        )
                    },
                    SightingKind::Update => ScanAction::Continue,
                }
            },
        }
    }

    /// Takes `event` and says what the caller is to do.
    pub fn step(&mut self, event: ScanEvent) -> (action: ScanAction)
        ensures
            (final(self)@, action@) == scan_step(old(self)@, event@),
    {
        match event {
            ScanEvent::Begin => {
                if self.phase == ScanPhase::Idle {
                    self.phase = ScanPhase::Subscribed;
                    ScanAction::Subscribe(Subscription::to(heartbeat_topic(self.root.as_str())))
                } else {
                    ScanAction::Rejected
                }
            },
            ScanEvent::Subscribed => {
                if self.phase == ScanPhase::Subscribed {
                    self.phase = ScanPhase::Scanning;
                    ScanAction::StartClock
                } else {
                    ScanAction::Rejected
                }
            },
            ScanEvent::Message { elapsed_s, inbound } => {
                match inbound {
                    Inbound::Publish { topic, payload } => {
                        let text = decode_lossy(payload.as_slice());
                        self.on_heartbeat(elapsed_s, topic.as_str(), text.as_str())
                    },
                    Inbound::Other => {
                        if self.phase != ScanPhase::Scanning {
                            ScanAction::Rejected
                        } else if elapsed_s >= self.limit_s {
                            self.phase = ScanPhase::Finished;
                            ScanAction::Finish(FinishReason::TimeLimitReached)
                        } else {
                            ScanAction::Continue
                        }
                    },
                }
            },
            ScanEvent::StreamEnded => {
                if self.phase == ScanPhase::Scanning {
                    self.phase = ScanPhase::Finished;
                    ScanAction::Finish(FinishReason::StreamEnded)
                } else {
                    ScanAction::Rejected
                }
            },
        }
    }
}

} // verus!
