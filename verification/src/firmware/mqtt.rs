//! What the MQTT bridge publishes for each controller event.
use super::controller::{
    AirAssistDemand, AirAssistPump, ChassisIntrusion, ControlEvent, CoolantResevoirLevel, Event,
    EventKind, FumeExtractionFan, FumeExtractionMode, LaserEnable, MachineEnable,
    MachineOperationLockout, MachinePower, MachineRun, ObservationEvent,
};
use super::text::{bool_text, bool_to_text, decimal, u64_to_text};
use vstd::prelude::*;

verus! {

/// What a publication carries.
pub enum Payload {
    Text(String),
    /// The JSON form of the monitor states of the event.
    MonitorsJson,
    /// The JSON form of the whole event.
    EventJson,
}

/// One message to publish.
pub struct Publication {
    pub topic: &'static str,
    pub payload: Payload,
    /// Whether the broker keeps the message for later subscribers.
    pub retain: bool,
}

pub enum PayloadView {
    Text(Seq<char>),
    MonitorsJson,
    EventJson,
}

pub struct PublicationView {
    pub topic: Seq<char>,
    pub payload: PayloadView,
    pub retain: bool,
}

impl View for Publication {
    type V = PublicationView;

    open spec fn view(&self) -> PublicationView {
        PublicationView {
            topic: self.topic@,
            payload: match self.payload {
                Payload::Text(s) => PayloadView::Text(s@),
                Payload::MonitorsJson => PayloadView::MonitorsJson,
                Payload::EventJson => PayloadView::EventJson,
            },
            retain: self.retain,
        }
    }
}

pub open spec fn views(v: Seq<Publication>) -> Seq<PublicationView> {
    v.map_values(|p: Publication| p@)
}

/// A retained text value.
pub open spec fn text_pub(topic: Seq<char>, text: Seq<char>) -> PublicationView {
    PublicationView { topic, payload: PayloadView::Text(text), retain: true }
}

/// How a temperature reading is published: its text, or `null` where the
/// sensor failed.
pub open spec fn temperature_text(r: Option<String>) -> Seq<char> {
    match r {
        Some(v) => v@,
        None => "null"@,
    }
}

pub open spec fn lockout_text(v: MachineOperationLockout) -> Seq<char> {
    match v {
        MachineOperationLockout::Permitted => "permitted"@,
        MachineOperationLockout::PermittedUntilIdle => "permitted_until_idle"@,
        MachineOperationLockout::Denied => "denied"@,
    }
}

pub open spec fn observation_publications(o: ObservationEvent) -> Seq<PublicationView> {
    match o {
        ObservationEvent::AirAssistDemand(v) => seq![
            text_pub(
                "hoshiguma/telemetry/air_assist_demand"@,
                match v {
                    AirAssistDemand::Idle => "idle"@,
                    AirAssistDemand::Demand => "demand"@,
                },
            ),
        ],
        ObservationEvent::ChassisIntrusion(v) => seq![
            text_pub(
                "hoshiguma/telemetry/chassis_intrusion"@,
                match v {
                    ChassisIntrusion::Normal => "normal"@,
                    ChassisIntrusion::Intruded => "intruded"@,
                },
            ),
        ],
        ObservationEvent::CoolantResevoirLevel(v) => seq![
            text_pub(
                "hoshiguma/telemetry/coolant_resevoir_level"@,
                match v {
                    Some(CoolantResevoirLevel::Full) => "full"@,
                    Some(CoolantResevoirLevel::Low) => "low"@,
                    Some(CoolantResevoirLevel::Empty) => "empty"@,
                    None => "unknown"@,
                },
            ),
        ],
        ObservationEvent::FumeExtractionMode(v) => seq![
            text_pub(
                "hoshiguma/telemetry/fume_extraction_mode"@,
                match v {
                    FumeExtractionMode::Automatic => "automatic"@,
                    FumeExtractionMode::OverrideRun => "override_run"@,
                },
            ),
        ],
        ObservationEvent::MachinePower(v) => seq![
            text_pub(
                "hoshiguma/telemetry/machine_power"@,
                match v {
                    MachinePower::On => "on"@,
                    MachinePower::Off => "off"@,
                },
            ),
        ],
        ObservationEvent::MachineRun(v) => seq![
            text_pub(
                "hoshiguma/telemetry/machine_run"@,
                match v {
                    MachineRun::Idle => "idle"@,
                    MachineRun::Running => "running"@,
                },
            ),
        ],
        ObservationEvent::Temperatures(t) => seq![
            text_pub("hoshiguma/telemetry/temperature/onboard"@, temperature_text(t.onboard)),
            text_pub("hoshiguma/telemetry/temperature/ambient"@, temperature_text(t.ambient)),
            text_pub(
                "hoshiguma/telemetry/temperature/coolant_flow"@,
                temperature_text(t.coolant_flow),
            ),
            text_pub(
                "hoshiguma/telemetry/temperature/coolant_return"@,
                temperature_text(t.coolant_return),
            ),
            text_pub(
                "hoshiguma/telemetry/temperature/coolant_pump"@,
                temperature_text(t.coolant_pump),
            ),
            text_pub(
                "hoshiguma/telemetry/temperature/laser_chamber"@,
                temperature_text(t.laser_chamber),
            ),
            text_pub(
                "hoshiguma/telemetry/temperature/electronics_bay_top"@,
                temperature_text(t.electronics_bay_top),
            ),
            text_pub(
                "hoshiguma/telemetry/temperature/coolant_resevoir_top"@,
                temperature_text(t.coolant_resevoir_top),
            ),
            text_pub(
                "hoshiguma/telemetry/temperature/coolant_resevoir_bottom"@,
                temperature_text(t.coolant_resevoir_bottom),
            ),
        ],
    }
}

pub open spec fn control_publications(c: ControlEvent) -> Seq<PublicationView> {
    match c {
        ControlEvent::AirAssistPump(v) => seq![
            text_pub(
                "hoshiguma/telemetry/air_assist_pump"@,
                match v {
                    AirAssistPump::Idle => "idle"@,
                    AirAssistPump::Run => "running"@,
                },
            ),
        ],
        ControlEvent::FumeExtractionFan(v) => seq![
            text_pub(
                "hoshiguma/telemetry/fume_extraction_fan"@,
                match v {
                    FumeExtractionFan::Idle => "idle"@,
                    FumeExtractionFan::Run => "running"@,
                },
            ),
        ],
        ControlEvent::LaserEnable(v) => seq![
            text_pub(
                "hoshiguma/telemetry/laser_enable"@,
                match v {
                    LaserEnable::Inhibit => "inhibited"@,
                    LaserEnable::Enable => "enabled"@,
                },
            ),
        ],
        ControlEvent::MachineEnable(v) => seq![
            text_pub(
                "hoshiguma/telemetry/machine_enable"@,
                match v {
                    MachineEnable::Inhibit => "inhibited"@,
                    MachineEnable::Enable => "enabled"@,
                },
            ),
        ],
        ControlEvent::StatusLamp(l) => seq![
            text_pub("hoshiguma/telemetry/status_lamp/red"@, bool_text(l.red)),
            text_pub("hoshiguma/telemetry/status_lamp/amber"@, bool_text(l.amber)),
            text_pub("hoshiguma/telemetry/status_lamp/green"@, bool_text(l.green)),
        ],
    }
}

/// What an event kind publishes after the uptime.
pub open spec fn kind_publications(k: EventKind) -> Seq<PublicationView> {
    match k {
        EventKind::MonitorsChanged => seq![
            PublicationView {
                topic: "hoshiguma/telemetry/monitors"@,
                payload: PayloadView::MonitorsJson,
                retain: true,
            },
        ],
        EventKind::LockoutChanged(v) => seq![
            text_pub("hoshiguma/telemetry/lockout"@, lockout_text(v)),
        ],
        EventKind::Observation(o) => observation_publications(o),
        EventKind::Control(c) => control_publications(c),
        _ => seq![
            PublicationView {
                topic: "hoshiguma/telemetry/events"@,
                payload: PayloadView::EventJson,
                retain: false,
            },
        ],
    }
}

/// Everything an event publishes, in order: first the controller's uptime,
/// then what the event itself says.
pub open spec fn event_publications(e: Event) -> Seq<PublicationView> {
    seq![
        text_pub(
            "hoshiguma/telemetry/controller/uptime_millis"@,
            decimal(e.timestamp_milliseconds as nat),
        ),
    ] + kind_publications(e.kind)
}

/// The uptime is written into a buffer of this many characters.
pub const UPTIME_TEXT_CAPACITY: u64 = 16;

fn push_pub(v: &mut Vec<Publication>, p: Publication)
    ensures
        views(final(v)@) == views(old(v)@).push(p@),
{
    let ghost pv = p@;
    v.push(p);
    proof {
        assert(views(v@) =~= views(old(v)@).push(pv));
    }
}

fn push_text(v: &mut Vec<Publication>, topic: &'static str, text: &str)
    ensures
        views(final(v)@) == views(old(v)@).push(text_pub(topic@, text@)),
{
    push_pub(v, Publication { topic, payload: Payload::Text(String::from_str(text)), retain: true });
}

fn temperature_str(r: &Option<String>) -> (s: &str)
    ensures
        s@ == temperature_text(*r),
{
    match r {
        Some(v) => v.as_str(),
        None => "null",
    }
}

fn lockout_str(v: MachineOperationLockout) -> (s: &'static str)
    ensures
        s@ == lockout_text(v),
{
    match v {
        MachineOperationLockout::Permitted => "permitted",
        MachineOperationLockout::PermittedUntilIdle => "permitted_until_idle",
        MachineOperationLockout::Denied => "denied",
    }
}

fn push_observation(v: &mut Vec<Publication>, o: &ObservationEvent)
    ensures
        views(final(v)@) == views(old(v)@) + observation_publications(*o),
{
    let ghost start = views(v@);
    match o {
        ObservationEvent::AirAssistDemand(x) => {
            push_text(
                v,
                "hoshiguma/telemetry/air_assist_demand",
                match x {
                    AirAssistDemand::Idle => "idle",
                    AirAssistDemand::Demand => "demand",
                },
            );
        },
        ObservationEvent::ChassisIntrusion(x) => {
            push_text(
                v,
                "hoshiguma/telemetry/chassis_intrusion",
                match x {
                    ChassisIntrusion::Normal => "normal",
                    ChassisIntrusion::Intruded => "intruded",
                },
            );
        },
        ObservationEvent::CoolantResevoirLevel(x) => {
            push_text(
                v,
                "hoshiguma/telemetry/coolant_resevoir_level",
                match x {
                    Some(CoolantResevoirLevel::Full) => "full",
                    Some(CoolantResevoirLevel::Low) => "low",
                    Some(CoolantResevoirLevel::Empty) => "empty",
                    None => "unknown",
                },
            );
        },
        ObservationEvent::FumeExtractionMode(x) => {
            push_text(
                v,
                "hoshiguma/telemetry/fume_extraction_mode",
                match x {
                    FumeExtractionMode::Automatic => "automatic",
                    FumeExtractionMode::OverrideRun => "override_run",
                },
            );
        },
        ObservationEvent::MachinePower(x) => {
            push_text(
                v,
                "hoshiguma/telemetry/machine_power",
                match x {
                    MachinePower::On => "on",
                    MachinePower::Off => "off",
                },
            );
        },
        ObservationEvent::MachineRun(x) => {
            push_text(
                v,
                "hoshiguma/telemetry/machine_run",
                match x {
                    MachineRun::Idle => "idle",
                    MachineRun::Running => "running",
                },
            );
        },
        ObservationEvent::Temperatures(t) => {
            push_text(v, "hoshiguma/telemetry/temperature/onboard", temperature_str(&t.onboard));
            push_text(v, "hoshiguma/telemetry/temperature/ambient", temperature_str(&t.ambient));
            push_text(
                v,
                "hoshiguma/telemetry/temperature/coolant_flow",
                temperature_str(&t.coolant_flow),
            );
            push_text(
                v,
                "hoshiguma/telemetry/temperature/coolant_return",
                temperature_str(&t.coolant_return),
            );
            push_text(
                v,
                "hoshiguma/telemetry/temperature/coolant_pump",
                temperature_str(&t.coolant_pump),
            );
            push_text(
                v,
                "hoshiguma/telemetry/temperature/laser_chamber",
                temperature_str(&t.laser_chamber),
            );
            push_text(
                v,
                "hoshiguma/telemetry/temperature/electronics_bay_top",
                temperature_str(&t.electronics_bay_top),
            );
            push_text(
                v,
                "hoshiguma/telemetry/temperature/coolant_resevoir_top",
                temperature_str(&t.coolant_resevoir_top),
            );
            push_text(
                v,
                "hoshiguma/telemetry/temperature/coolant_resevoir_bottom",
                temperature_str(&t.coolant_resevoir_bottom),
            );
        },
    }
    proof {
        assert(views(v@) =~= start + observation_publications(*o));
    }
}

fn push_control(v: &mut Vec<Publication>, c: &ControlEvent)
    ensures
        views(final(v)@) == views(old(v)@) + control_publications(*c),
{
    let ghost start = views(v@);
    match c {
        ControlEvent::AirAssistPump(x) => {
            push_text(
                v,
                "hoshiguma/telemetry/air_assist_pump",
                match x {
                    AirAssistPump::Idle => "idle",
                    AirAssistPump::Run => "running",
                },
            );
        },
        ControlEvent::FumeExtractionFan(x) => {
            push_text(
                v,
                "hoshiguma/telemetry/fume_extraction_fan",
                match x {
                    FumeExtractionFan::Idle => "idle",
                    FumeExtractionFan::Run => "running",
                },
            );
        },
        ControlEvent::LaserEnable(x) => {
            push_text(
                v,
                "hoshiguma/telemetry/laser_enable",
                match x {
                    LaserEnable::Inhibit => "inhibited",
                    LaserEnable::Enable => "enabled",
                },
            );
        },
        ControlEvent::MachineEnable(x) => {
            push_text(
                v,
                "hoshiguma/telemetry/machine_enable",
                match x {
                    MachineEnable::Inhibit => "inhibited",
                    MachineEnable::Enable => "enabled",
                },
            );
        },
        ControlEvent::StatusLamp(l) => {
            push_text(v, "hoshiguma/telemetry/status_lamp/red", bool_to_text(l.red));
            push_text(v, "hoshiguma/telemetry/status_lamp/amber", bool_to_text(l.amber));
            push_text(v, "hoshiguma/telemetry/status_lamp/green", bool_to_text(l.green));
        },
    }
    proof {
        assert(views(v@) =~= start + control_publications(*c));
    }
}

/// The messages to publish for a controller event, in the order they are to
/// be sent; sending stops at the first that fails.
///
/// The uptime is written into a 16-character buffer, so an uptime of 10^16
/// milliseconds or more (over 300,000 years) cannot be published.
pub fn telemetry_publications(e: &Event) -> (r: Vec<Publication>)
    requires
        e.timestamp_milliseconds < 10_000_000_000_000_000,
    ensures
        views(r@) == event_publications(*e),
{
    let mut v: Vec<Publication> = Vec::new();
    let uptime = u64_to_text(e.timestamp_milliseconds);
    push_text(&mut v, "hoshiguma/telemetry/controller/uptime_millis", uptime.as_str());
    let ghost first = views(v@);
    match &e.kind {
        EventKind::MonitorsChanged => {
            push_pub(
                &mut v,
                Publication {
                    topic: "hoshiguma/telemetry/monitors",
                    payload: Payload::MonitorsJson,
                    retain: true,
                },
            );
        },
        EventKind::LockoutChanged(x) => {
            push_text(&mut v, "hoshiguma/telemetry/lockout", lockout_str(*x));
        },
        EventKind::Observation(o) => {
            push_observation(&mut v, o);
        },
        EventKind::Control(c) => {
            push_control(&mut v, c);
        },
        _ => {
            push_pub(
                &mut v,
                Publication {
                    topic: "hoshiguma/telemetry/events",
                    payload: Payload::EventJson,
                    retain: false,
                },
            );
        },
    }
    proof {
        assert(views(v@) =~= event_publications(*e));
    }
    v
}

/// What the bridge publishes right after connecting to the broker: that the
/// module is online, and its firmware version; both retained.
pub open spec fn session_start(version: Seq<char>) -> Seq<PublicationView> {
    seq![
        text_pub("hoshiguma/telemetry-module/online"@, "true"@),
        text_pub("hoshiguma/telemetry-module/version"@, version),
    ]
}

/// What the bridge publishes right after connecting to the broker.
pub fn session_start_publications(version: &str) -> (r: Vec<Publication>)
    ensures
        views(r@) == session_start(version@),
{
    let mut v: Vec<Publication> = Vec::new();
    push_text(&mut v, "hoshiguma/telemetry-module/online", "true");
    push_text(&mut v, "hoshiguma/telemetry-module/version", version);
    proof {
        assert(views(v@) =~= session_start(version@));
    }
    v
}

/// The message the broker publishes on the module's behalf when the module
/// drops off: that it is no longer online, retained.
pub fn last_will() -> (p: Publication)
    ensures
        p@ == text_pub("hoshiguma/telemetry-module/online"@, "false"@),
{
    Publication {
        topic: "hoshiguma/telemetry-module/online",
        payload: Payload::Text(String::from_str("false")),
        retain: true,
    }
}

/// What the broker made of a message.
#[derive(Clone, Copy, Debug, PartialEq, Eq, Structural)]
pub enum SendOutcome {
    Sent,
    /// Nobody subscribes to the topic; the message is still delivered.
    NoMatchingSubscribers,
    Failed,
}

/// Whether a publication counts as done: a topic with no subscribers is no
/// failure.
pub fn publish_result(o: SendOutcome) -> (r: Result<(), ()>)
    ensures
        r is Ok <==> o != SendOutcome::Failed,
{
    match o {
        SendOutcome::Sent => Ok(()),
        SendOutcome::NoMatchingSubscribers => Ok(()),
        SendOutcome::Failed => Err(()),
    }
}

/// What comes next while a list of publications goes out in order.
#[derive(Clone, Copy, Debug, PartialEq, Eq)]
pub enum PublishNext {
    /// Send the publication at this position.
    Send(usize),
    /// The list is done with: `Ok` once every publication went out, `Err` at
    /// the first that failed.
    Done(Result<(), ()>),
}

/// The first thing to do for a list of `total` publications.
pub fn publish_first(total: usize) -> (n: PublishNext)
    ensures
        total == 0 ==> n == PublishNext::Done(Ok(())),
        total > 0 ==> n == PublishNext::Send(0),
{
    if total == 0 {
        PublishNext::Done(Ok(()))
    } else {
        PublishNext::Send(0)
    }
}

/// What to do once the publication at position `sent` of `total` went out
/// with `outcome`: the first failure stops the rest.
pub fn publish_step(sent: usize, total: usize, outcome: SendOutcome) -> (n: PublishNext)
    requires
        sent < total,
    ensures
        outcome == SendOutcome::Failed ==> n == PublishNext::Done(Err(())),
        outcome != SendOutcome::Failed && sent + 1 < total ==> n == PublishNext::Send(
            (sent + 1) as usize,
        ),
        outcome != SendOutcome::Failed && sent + 1 == total ==> n == PublishNext::Done(Ok(())),
{
    match publish_result(outcome) {
        Err(()) => PublishNext::Done(Err(())),
        Ok(()) => if sent + 1 < total {
            PublishNext::Send(sent + 1)
        } else {
            PublishNext::Done(Ok(()))
        },
    }
}

/// Every event first publishes the controller's uptime, retained, under the
/// same topic.
pub proof fn lemma_uptime_first(e: Event)
    ensures
        event_publications(e).len() >= 2,
        event_publications(e)[0] == text_pub(
            "hoshiguma/telemetry/controller/uptime_millis"@,
            decimal(e.timestamp_milliseconds as nat),
        ),
{
    match e.kind {
        EventKind::Observation(o) => match o {
            ObservationEvent::Temperatures(_) => {},
            _ => {},
        },
        EventKind::Control(c) => match c {
            ControlEvent::StatusLamp(_) => {},
            _ => {},
        },
        _ => {},
    }
}

/// Only whole-event JSON goes out unretained: every value the bridge
/// publishes for itself is retained for later subscribers.
pub proof fn lemma_retained_values(e: Event, i: int)
    requires
        0 <= i < event_publications(e).len(),
    ensures
        !event_publications(e)[i].retain <==> event_publications(e)[i].payload is EventJson,
{
    match e.kind {
        EventKind::Observation(o) => match o {
            ObservationEvent::Temperatures(_) => {},
            _ => {},
        },
        EventKind::Control(c) => match c {
            ControlEvent::StatusLamp(_) => {},
            _ => {},
        },
        _ => {},
    }
}

/// Whether `e` publishes its uptime and then `text`, retained, on `topic`
/// and nothing else.
pub open spec fn publishes_one(e: Event, topic: Seq<char>, text: Seq<char>) -> bool {
    event_publications(e) == seq![
        PublicationView {
            topic: "hoshiguma/telemetry/controller/uptime_millis"@,
            payload: PayloadView::Text(decimal(e.timestamp_milliseconds as nat)),
            retain: true,
        },
        PublicationView { topic, payload: PayloadView::Text(text), retain: true },
    ]
}

/// Each reported state goes out, retained, on its own topic as the
/// lower-case name of the state: machine power `on`/`off`, machine run
/// `idle`/`running`, chassis `normal`/`intruded`, air assist demand
/// `idle`/`demand`, fume extraction mode `automatic`/`override_run`, reservoir
/// level `full`/`low`/`empty` (`unknown` where the sensor failed), air assist
/// pump and fume extraction fan `idle`/`running`, laser and machine enable
/// `inhibited`/`enabled`, and the lockout `permitted`/`permitted_until_idle`/
/// `denied`.
pub proof fn lemma_states_published_by_name(e: Event)
    ensures
        e.kind matches EventKind::Observation(ObservationEvent::MachinePower(v)) ==> publishes_one(
            e,
            "hoshiguma/telemetry/machine_power"@,
            if v == MachinePower::On { "on"@ } else { "off"@ },
        ),
        e.kind matches EventKind::Observation(ObservationEvent::MachineRun(v)) ==> publishes_one(
            e,
            "hoshiguma/telemetry/machine_run"@,
            if v == MachineRun::Running { "running"@ } else { "idle"@ },
        ),
        e.kind matches EventKind::Observation(ObservationEvent::ChassisIntrusion(v)) ==> publishes_one(
            e,
            "hoshiguma/telemetry/chassis_intrusion"@,
            if v == ChassisIntrusion::Intruded { "intruded"@ } else { "normal"@ },
        ),
        e.kind matches EventKind::Observation(ObservationEvent::AirAssistDemand(v)) ==> publishes_one(
            e,
            "hoshiguma/telemetry/air_assist_demand"@,
            if v == AirAssistDemand::Demand { "demand"@ } else { "idle"@ },
        ),
        e.kind matches EventKind::Observation(ObservationEvent::FumeExtractionMode(v)) ==> publishes_one(
            e,
            "hoshiguma/telemetry/fume_extraction_mode"@,
            if v == FumeExtractionMode::OverrideRun { "override_run"@ } else { "automatic"@ },
        ),
        e.kind matches EventKind::Observation(ObservationEvent::CoolantResevoirLevel(v)) ==> publishes_one(
            e,
            "hoshiguma/telemetry/coolant_resevoir_level"@,
            if v == Some(CoolantResevoirLevel::Full) {
                "full"@
            } else if v == Some(CoolantResevoirLevel::Low) {
                "low"@
            } else if v == Some(CoolantResevoirLevel::Empty) {
                "empty"@
            } else {
                "unknown"@
            },
        ),
        e.kind matches EventKind::Control(ControlEvent::AirAssistPump(v)) ==> publishes_one(
            e,
            "hoshiguma/telemetry/air_assist_pump"@,
            if v == AirAssistPump::Run { "running"@ } else { "idle"@ },
        ),
        e.kind matches EventKind::Control(ControlEvent::FumeExtractionFan(v)) ==> publishes_one(
            e,
            "hoshiguma/telemetry/fume_extraction_fan"@,
            if v == FumeExtractionFan::Run { "running"@ } else { "idle"@ },
        ),
        e.kind matches EventKind::Control(ControlEvent::LaserEnable(v)) ==> publishes_one(
            e,
            "hoshiguma/telemetry/laser_enable"@,
            if v == LaserEnable::Enable { "enabled"@ } else { "inhibited"@ },
        ),
        e.kind matches EventKind::Control(ControlEvent::MachineEnable(v)) ==> publishes_one(
            e,
            "hoshiguma/telemetry/machine_enable"@,
            if v == MachineEnable::Enable { "enabled"@ } else { "inhibited"@ },
        ),
        e.kind matches EventKind::LockoutChanged(v) ==> publishes_one(
            e,
            "hoshiguma/telemetry/lockout"@,
            if v == MachineOperationLockout::Permitted {
                "permitted"@
            } else if v == MachineOperationLockout::PermittedUntilIdle {
                "permitted_until_idle"@
            } else {
                "denied"@
            },
        ),
{
    let u = PublicationView {
        topic: "hoshiguma/telemetry/controller/uptime_millis"@,
        payload: PayloadView::Text(decimal(e.timestamp_milliseconds as nat)),
        retain: true,
    };
    let k = kind_publications(e.kind);
    if k.len() == 1 {
        assert(event_publications(e) =~= seq![u, k[0]]);
    }
    match e.kind {
        EventKind::Observation(o) => match o {
            ObservationEvent::MachinePower(_) => assert(k.len() == 1),
            ObservationEvent::MachineRun(_) => assert(k.len() == 1),
            _ => {},
        },
        _ => {},
    }
}

/// The status lamp goes out as one retained topic per light, each `true`
/// exactly when that light is on, and each temperature goes out on its own
/// sensor's topic as that sensor's reading, or `null` where it failed.
pub proof fn lemma_lamp_and_temperatures_published(e: Event)
    ensures
        e.kind matches EventKind::Control(ControlEvent::StatusLamp(l)) ==> {
            let p = event_publications(e);
            &&& p.len() == 4
            &&& p[1] == text_pub("hoshiguma/telemetry/status_lamp/red"@, if l.red { "true"@ } else { "false"@ })
            &&& p[2] == text_pub("hoshiguma/telemetry/status_lamp/amber"@, if l.amber { "true"@ } else { "false"@ })
            &&& p[3] == text_pub("hoshiguma/telemetry/status_lamp/green"@, if l.green { "true"@ } else { "false"@ })
        },
        e.kind matches EventKind::Observation(ObservationEvent::Temperatures(t)) ==> {
            let p = event_publications(e);
            let reading = |r: Option<String>| if r is Some { r->Some_0@ } else { "null"@ };
            &&& p.len() == 10
            &&& p[1] == text_pub("hoshiguma/telemetry/temperature/onboard"@, reading(t.onboard))
            &&& p[2] == text_pub("hoshiguma/telemetry/temperature/ambient"@, reading(t.ambient))
            &&& p[3] == text_pub("hoshiguma/telemetry/temperature/coolant_flow"@, reading(t.coolant_flow))
            &&& p[4] == text_pub("hoshiguma/telemetry/temperature/coolant_return"@, reading(t.coolant_return))
            &&& p[5] == text_pub("hoshiguma/telemetry/temperature/coolant_pump"@, reading(t.coolant_pump))
            &&& p[6] == text_pub("hoshiguma/telemetry/temperature/laser_chamber"@, reading(t.laser_chamber))
            &&& p[7] == text_pub(
                "hoshiguma/telemetry/temperature/electronics_bay_top"@,
                reading(t.electronics_bay_top),
            )
            &&& p[8] == text_pub(
                "hoshiguma/telemetry/temperature/coolant_resevoir_top"@,
                reading(t.coolant_resevoir_top),
            )
            &&& p[9] == text_pub(
                "hoshiguma/telemetry/temperature/coolant_resevoir_bottom"@,
                reading(t.coolant_resevoir_bottom),
            )
        },
{
}

/// On connecting, the module announces itself online (`true`, retained) on
/// the same topic where its last will later says `false`, and then its
/// version, retained, on its own topic.
pub proof fn lemma_online_then_version(version: Seq<char>)
    ensures
        session_start(version).len() == 2,
        session_start(version)[0] == (PublicationView {
            topic: "hoshiguma/telemetry-module/online"@,
            payload: PayloadView::Text("true"@),
            retain: true,
        }),
        session_start(version)[1] == (PublicationView {
            topic: "hoshiguma/telemetry-module/version"@,
            payload: PayloadView::Text(version),
            retain: true,
        }),
{
}

/// Whether the second publication of `e` is `p`, after the uptime.
pub open spec fn then_publishes(e: Event, p: PublicationView) -> bool {
    event_publications(e).len() == 2 && event_publications(e)[1] == p
}

/// A change of the monitors goes out as their JSON, retained, on the
/// monitors topic; a boot or process event goes out as the whole event's
/// JSON, not retained, on the events topic.
pub proof fn lemma_json_publications(e: Event)
    ensures
        (e.kind is MonitorsChanged) ==> then_publishes(
            e,
            PublicationView {
                topic: "hoshiguma/telemetry/monitors"@,
                payload: PayloadView::MonitorsJson,
                retain: true,
            },
        ),
        (e.kind is Boot) ==> then_publishes(
            e,
            PublicationView {
                topic: "hoshiguma/telemetry/events"@,
                payload: PayloadView::EventJson,
                retain: false,
            },
        ),
        (e.kind is Process) ==> then_publishes(
            e,
            PublicationView {
                topic: "hoshiguma/telemetry/events"@,
                payload: PayloadView::EventJson,
                retain: false,
            },
        ),
{
}

} // verus!
