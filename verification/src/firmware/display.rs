//! What the display knows of the machine and of the module, and the rows of
//! text its screens show.
use super::controller::{
    AirAssistDemand, AirAssistPump, ChassisIntrusion, ControlEvent, CoolantResevoirLevel, Event,
    EventKind, FumeExtractionFan, FumeExtractionMode, LaserEnable, MachineEnable,
    MachineOperationLockout, MachinePower, MachineRun, ObservationEvent, ProcessEvent, Temperatures,
};
use super::metric::{BootReason, StatusLamp};
use super::screens::Screen;
use super::system::boot_reason_label;
use super::text::{decimal, u64_to_text};
use vstd::prelude::*;

verus! {

/// An IPv4 configuration obtained from DHCP.
#[derive(Clone, Debug)]
pub struct Ipv4Config {
    pub address: [u8; 4],
    pub prefix_len: u8,
    pub gateway: Option<[u8; 4]>,
    pub dns_servers: Vec<[u8; 4]>,
}

/// What the network side reports to the display.
#[derive(Clone, Debug)]
pub enum NetworkEvent {
    NetworkConnected(Ipv4Config),
    MqttBrokerConnected,
    MqttBrokerDisconnected,
}

/// What the display task receives.
#[derive(Clone, Debug)]
pub enum DisplayInput {
    Network(NetworkEvent),
    Telemetry(Event),
    /// The telemetry feed skipped this many events.
    Lagged(u64),
}

/// Everything the display knows; `None` where nothing was heard yet.
#[derive(Clone, Debug)]
pub struct DisplayDataState {
    pub ipv4_config: Option<Ipv4Config>,
    pub mqtt_broker_connected: bool,
    pub controller_git_rev: Option<String>,
    pub controller_uptime: Option<u64>,
    pub air_assist_demand: Option<AirAssistDemand>,
    pub chassis_intrusion: Option<ChassisIntrusion>,
    /// The last level reading; `Some(None)` where the level sensor failed.
    pub coolant_resevoir_level: Option<Option<CoolantResevoirLevel>>,
    pub fume_extraction_mode: Option<FumeExtractionMode>,
    pub machine_power: Option<MachinePower>,
    pub machine_run_status: Option<MachineRun>,
    pub temperatures: Option<Temperatures>,
    pub alarms: Option<String>,
    pub lockout: Option<MachineOperationLockout>,
    pub air_assist_pump: Option<AirAssistPump>,
    pub fume_extraction_fan: Option<FumeExtractionFan>,
    pub laser_enable: Option<LaserEnable>,
    pub machine_enable: Option<MachineEnable>,
    pub status_lamp: Option<StatusLamp>,
}

/// What the display knows after `input`.
pub open spec fn applied(s: DisplayDataState, input: DisplayInput) -> DisplayDataState {
    match input {
        DisplayInput::Network(NetworkEvent::NetworkConnected(c)) => DisplayDataState {
            ipv4_config: Some(c),
            ..s
        },
        DisplayInput::Network(NetworkEvent::MqttBrokerConnected) => DisplayDataState {
            mqtt_broker_connected: true,
            ..s
        },
        DisplayInput::Network(NetworkEvent::MqttBrokerDisconnected) => DisplayDataState {
            mqtt_broker_connected: false,
            ..s
        },
        DisplayInput::Lagged(_) => s,
        DisplayInput::Telemetry(e) => event_applied(
            DisplayDataState { controller_uptime: Some(e.timestamp_milliseconds), ..s },
            e.kind,
        ),
    }
}

/// What the display knows after a controller event (its uptime aside).
pub open spec fn event_applied(s: DisplayDataState, k: EventKind) -> DisplayDataState {
    match k {
        EventKind::Boot(info) => DisplayDataState { controller_git_rev: Some(info.git_revision), ..s },
        EventKind::Observation(o) => match o {
            ObservationEvent::AirAssistDemand(v) => DisplayDataState {
                air_assist_demand: Some(v),
                ..s
            },
            ObservationEvent::ChassisIntrusion(v) => DisplayDataState {
                chassis_intrusion: Some(v),
                ..s
            },
            ObservationEvent::CoolantResevoirLevel(v) => DisplayDataState {
                coolant_resevoir_level: Some(v),
                ..s
            },
            ObservationEvent::FumeExtractionMode(v) => DisplayDataState {
                fume_extraction_mode: Some(v),
                ..s
            },
            ObservationEvent::MachinePower(v) => DisplayDataState { machine_power: Some(v), ..s },
            ObservationEvent::MachineRun(v) => DisplayDataState {
                machine_run_status: Some(v),
                ..s
            },
            ObservationEvent::Temperatures(v) => DisplayDataState { temperatures: Some(v), ..s },
        },
        EventKind::Process(p) => match p {
            ProcessEvent::Monitor => s,
            ProcessEvent::Alarms(v) => DisplayDataState { alarms: Some(v), ..s },
            ProcessEvent::Lockout(v) => DisplayDataState { lockout: Some(v), ..s },
        },
        EventKind::Control(c) => match c {
            ControlEvent::AirAssistPump(v) => DisplayDataState { air_assist_pump: Some(v), ..s },
            ControlEvent::FumeExtractionFan(v) => DisplayDataState {
                fume_extraction_fan: Some(v),
                ..s
            },
            ControlEvent::LaserEnable(v) => DisplayDataState { laser_enable: Some(v), ..s },
            ControlEvent::MachineEnable(v) => DisplayDataState { machine_enable: Some(v), ..s },
            ControlEvent::StatusLamp(v) => DisplayDataState { status_lamp: Some(v), ..s },
        },
        EventKind::MonitorsChanged => s,
        EventKind::LockoutChanged(_) => s,
    }
}

impl DisplayDataState {
    /// A display that knows nothing yet.
    pub fn new() -> (s: Self)
        ensures
            s.ipv4_config is None,
            !s.mqtt_broker_connected,
            s.controller_git_rev is None,
            s.controller_uptime is None,
            s.air_assist_demand is None,
            s.chassis_intrusion is None,
            s.coolant_resevoir_level is None,
            s.fume_extraction_mode is None,
            s.machine_power is None,
            s.machine_run_status is None,
            s.temperatures is None,
            s.alarms is None,
            s.lockout is None,
            s.air_assist_pump is None,
            s.fume_extraction_fan is None,
            s.laser_enable is None,
            s.machine_enable is None,
            s.status_lamp is None,
    {
        DisplayDataState {
            ipv4_config: None,
            mqtt_broker_connected: false,
            controller_git_rev: None,
            controller_uptime: None,
            air_assist_demand: None,
            chassis_intrusion: None,
            coolant_resevoir_level: None,
            fume_extraction_mode: None,
            machine_power: None,
            machine_run_status: None,
            temperatures: None,
            alarms: None,
            lockout: None,
            air_assist_pump: None,
            fume_extraction_fan: None,
            laser_enable: None,
            machine_enable: None,
            status_lamp: None,
        }
    }

    /// Takes in what the display task received.
    pub fn apply(&mut self, input: DisplayInput)
        ensures
            *final(self) == applied(*old(self), input),
    {
        match input {
            DisplayInput::Network(NetworkEvent::NetworkConnected(c)) => {
                self.ipv4_config = Some(c);
            },
            DisplayInput::Network(NetworkEvent::MqttBrokerConnected) => {
                self.mqtt_broker_connected = true;
            },
            DisplayInput::Network(NetworkEvent::MqttBrokerDisconnected) => {
                self.mqtt_broker_connected = false;
            },
            DisplayInput::Lagged(_) => {},
            DisplayInput::Telemetry(e) => {
                self.controller_uptime = Some(e.timestamp_milliseconds);
                match e.kind {
                    EventKind::Boot(info) => {
                        self.controller_git_rev = Some(info.git_revision);
                    },
                    EventKind::Observation(o) => match o {
                        ObservationEvent::AirAssistDemand(v) => {
                            self.air_assist_demand = Some(v);
                        },
                        ObservationEvent::ChassisIntrusion(v) => {
                            self.chassis_intrusion = Some(v);
                        },
                        ObservationEvent::CoolantResevoirLevel(v) => {
                            self.coolant_resevoir_level = Some(v);
                        },
                        ObservationEvent::FumeExtractionMode(v) => {
                            self.fume_extraction_mode = Some(v);
                        },
                        ObservationEvent::MachinePower(v) => {
                            self.machine_power = Some(v);
                        },
                        ObservationEvent::MachineRun(v) => {
                            self.machine_run_status = Some(v);
                        },
                        ObservationEvent::Temperatures(v) => {
                            self.temperatures = Some(v);
                        },
                    },
                    EventKind::Process(p) => match p {
                        ProcessEvent::Monitor => {},
                        ProcessEvent::Alarms(v) => {
                            self.alarms = Some(v);
                        },
                        ProcessEvent::Lockout(v) => {
                            self.lockout = Some(v);
                        },
                    },
                    EventKind::Control(c) => match c {
                        ControlEvent::AirAssistPump(v) => {
                            self.air_assist_pump = Some(v);
                        },
                        ControlEvent::FumeExtractionFan(v) => {
                            self.fume_extraction_fan = Some(v);
                        },
                        ControlEvent::LaserEnable(v) => {
                            self.laser_enable = Some(v);
                        },
                        ControlEvent::MachineEnable(v) => {
                            self.machine_enable = Some(v);
                        },
                        ControlEvent::StatusLamp(v) => {
                            self.status_lamp = Some(v);
                        },
                    },
                    EventKind::MonitorsChanged => {},
                    EventKind::LockoutChanged(_) => {},
                }
            },
        }
    }
}

/// A controller event records its value where the display keeps that kind
/// of value, and leaves every other kind of value as it was: after a
/// `ChassisIntrusion(v)` observation the display knows `chassis_intrusion ==
/// Some(v)`, after a `StatusLamp(v)` control `status_lamp == Some(v)`, and so
/// on for each kind. The uptime becomes the event's timestamp, a boot event
/// records the firmware revision, and the network side stays as it was.
pub proof fn lemma_event_recorded_in_its_place(s: DisplayDataState, e: Event)
    ensures
        applied(s, DisplayInput::Telemetry(e)).controller_uptime == Some(e.timestamp_milliseconds),
        match e.kind {
            EventKind::Boot(info) => applied(s, DisplayInput::Telemetry(e)).controller_git_rev
                == Some(info.git_revision),
            _ => applied(s, DisplayInput::Telemetry(e)).controller_git_rev == s.controller_git_rev,
        },
        match e.kind {
            EventKind::Observation(ObservationEvent::AirAssistDemand(v)) => applied(s, DisplayInput::Telemetry(e)).air_assist_demand == Some(v),
            _ => applied(s, DisplayInput::Telemetry(e)).air_assist_demand == s.air_assist_demand,
        },
        match e.kind {
            EventKind::Observation(ObservationEvent::ChassisIntrusion(v)) => applied(s, DisplayInput::Telemetry(e)).chassis_intrusion == Some(v),
            _ => applied(s, DisplayInput::Telemetry(e)).chassis_intrusion == s.chassis_intrusion,
        },
        match e.kind {
            EventKind::Observation(ObservationEvent::CoolantResevoirLevel(v)) => applied(s, DisplayInput::Telemetry(e)).coolant_resevoir_level == Some(v),
            _ => applied(s, DisplayInput::Telemetry(e)).coolant_resevoir_level == s.coolant_resevoir_level,
        },
        match e.kind {
            EventKind::Observation(ObservationEvent::FumeExtractionMode(v)) => applied(s, DisplayInput::Telemetry(e)).fume_extraction_mode == Some(v),
            _ => applied(s, DisplayInput::Telemetry(e)).fume_extraction_mode == s.fume_extraction_mode,
        },
        match e.kind {
            EventKind::Observation(ObservationEvent::MachinePower(v)) => applied(s, DisplayInput::Telemetry(e)).machine_power == Some(v),
            _ => applied(s, DisplayInput::Telemetry(e)).machine_power == s.machine_power,
        },
        match e.kind {
            EventKind::Observation(ObservationEvent::MachineRun(v)) => applied(s, DisplayInput::Telemetry(e)).machine_run_status == Some(v),
            _ => applied(s, DisplayInput::Telemetry(e)).machine_run_status == s.machine_run_status,
        },
        match e.kind {
            EventKind::Observation(ObservationEvent::Temperatures(v)) => applied(s, DisplayInput::Telemetry(e)).temperatures == Some(v),
            _ => applied(s, DisplayInput::Telemetry(e)).temperatures == s.temperatures,
        },
        match e.kind {
            EventKind::Process(ProcessEvent::Alarms(v)) => applied(s, DisplayInput::Telemetry(e)).alarms == Some(v),
            _ => applied(s, DisplayInput::Telemetry(e)).alarms == s.alarms,
        },
        match e.kind {
            EventKind::Process(ProcessEvent::Lockout(v)) => applied(s, DisplayInput::Telemetry(e)).lockout == Some(v),
            _ => applied(s, DisplayInput::Telemetry(e)).lockout == s.lockout,
        },
        match e.kind {
            EventKind::Control(ControlEvent::AirAssistPump(v)) => applied(s, DisplayInput::Telemetry(e)).air_assist_pump == Some(v),
            _ => applied(s, DisplayInput::Telemetry(e)).air_assist_pump == s.air_assist_pump,
        },
        match e.kind {
            EventKind::Control(ControlEvent::FumeExtractionFan(v)) => applied(s, DisplayInput::Telemetry(e)).fume_extraction_fan == Some(v),
            _ => applied(s, DisplayInput::Telemetry(e)).fume_extraction_fan == s.fume_extraction_fan,
        },
        match e.kind {
            EventKind::Control(ControlEvent::LaserEnable(v)) => applied(s, DisplayInput::Telemetry(e)).laser_enable == Some(v),
            _ => applied(s, DisplayInput::Telemetry(e)).laser_enable == s.laser_enable,
        },
        match e.kind {
            EventKind::Control(ControlEvent::MachineEnable(v)) => applied(s, DisplayInput::Telemetry(e)).machine_enable == Some(v),
            _ => applied(s, DisplayInput::Telemetry(e)).machine_enable == s.machine_enable,
        },
        match e.kind {
            EventKind::Control(ControlEvent::StatusLamp(v)) => applied(s, DisplayInput::Telemetry(e)).status_lamp == Some(v),
            _ => applied(s, DisplayInput::Telemetry(e)).status_lamp == s.status_lamp,
        },
        applied(s, DisplayInput::Telemetry(e)).ipv4_config == s.ipv4_config,
        applied(s, DisplayInput::Telemetry(e)).mqtt_broker_connected == s.mqtt_broker_connected,
{
}

/// Each row of the inputs screen shows its own input: machine power `On`
/// (normal) or `Off` (critical), machine run, air assist demand, fume
/// extraction mode (`Auto` or `Manual`), chassis (`OK` or `Intrusion`) and
/// reservoir level (`Full` normal, `Low` warning, `Empty` critical); a row
/// whose input is not known yet shows no value.
pub proof fn lemma_inputs_rows_show_their_inputs(s: DisplayDataState, rows: Seq<RowView>)
    requires
        rows == inputs_rows(s),
    ensures
        rows.len() == 6,
        rows[0].label == "Mach Power"@,
        rows[0].value is None <==> s.machine_power is None,
        s.machine_power == Some(MachinePower::On) ==> rows[0].value == Some("On"@) && rows[0].severity == Some(Severity::Normal),
        s.machine_power == Some(MachinePower::Off) ==> rows[0].value == Some("Off"@) && rows[0].severity == Some(Severity::Critical),
        rows[1].label == "Mach Run"@,
        rows[1].value is None <==> s.machine_run_status is None,
        s.machine_run_status == Some(MachineRun::Idle) ==> rows[1].value == Some("Idle"@),
        s.machine_run_status == Some(MachineRun::Running) ==> rows[1].value == Some("Running"@),
        rows[2].label == "Air Demand"@,
        rows[2].value is None <==> s.air_assist_demand is None,
        s.air_assist_demand == Some(AirAssistDemand::Idle) ==> rows[2].value == Some("Idle"@),
        s.air_assist_demand == Some(AirAssistDemand::Demand) ==> rows[2].value == Some("Demand"@),
        rows[3].label == "Extr Mode"@,
        rows[3].value is None <==> s.fume_extraction_mode is None,
        s.fume_extraction_mode == Some(FumeExtractionMode::Automatic) ==> rows[3].value == Some("Auto"@),
        s.fume_extraction_mode == Some(FumeExtractionMode::OverrideRun) ==> rows[3].value == Some("Manual"@),
        rows[4].label == "Chassis"@,
        rows[4].value is None <==> s.chassis_intrusion is None,
        s.chassis_intrusion == Some(ChassisIntrusion::Normal) ==> rows[4].value == Some("OK"@),
        s.chassis_intrusion == Some(ChassisIntrusion::Intruded) ==> rows[4].value == Some("Intrusion"@),
        rows[5].label == "Cool Level"@,
        rows[5].value is None <==> !(s.coolant_resevoir_level matches Some(Some(_))),
        s.coolant_resevoir_level == Some(Some(CoolantResevoirLevel::Full)) ==> rows[5].value == Some("Full"@) && rows[5].severity == Some(Severity::Normal),
        s.coolant_resevoir_level == Some(Some(CoolantResevoirLevel::Low)) ==> rows[5].value == Some("Low"@) && rows[5].severity == Some(Severity::Warning),
        s.coolant_resevoir_level == Some(Some(CoolantResevoirLevel::Empty)) ==> rows[5].value == Some("Empty"@) && rows[5].severity == Some(Severity::Critical),
{
}

/// Each row of the outputs screen shows its own output: the status lamp as
/// `R`, `A` and `G` in the places of the lights that are on (blanks for those
/// that are off), machine and laser enable (`Inhibited` or `Enabled`), air
/// assist pump and fume extraction fan (`Idle` or `Run`); a row whose output
/// is not known yet shows no value.
pub proof fn lemma_outputs_rows_show_their_outputs(s: DisplayDataState, rows: Seq<RowView>)
    requires
        rows == outputs_rows(s),
    ensures
        rows.len() == 5,
        rows[0].label == "Status L"@,
        rows[0].value is None <==> s.status_lamp is None,
        s.status_lamp matches Some(l) ==> {
            let t = rows[0].value->Some_0;
            &&& t.len() == 5
            &&& t[0] == (if l.red { 'R' } else { ' ' })
            &&& t[1] == ' '
            &&& t[2] == (if l.amber { 'A' } else { ' ' })
            &&& t[3] == ' '
            &&& t[4] == (if l.green { 'G' } else { ' ' })
        },
        rows[1].label == "Mach En"@,
        rows[1].value is None <==> s.machine_enable is None,
        s.machine_enable == Some(MachineEnable::Inhibit) ==> rows[1].value == Some("Inhibited"@),
        s.machine_enable == Some(MachineEnable::Enable) ==> rows[1].value == Some("Enabled"@),
        rows[2].label == "Laser En"@,
        rows[2].value is None <==> s.laser_enable is None,
        s.laser_enable == Some(LaserEnable::Inhibit) ==> rows[2].value == Some("Inhibited"@),
        s.laser_enable == Some(LaserEnable::Enable) ==> rows[2].value == Some("Enabled"@),
        rows[3].label == "Air Pump"@,
        rows[3].value is None <==> s.air_assist_pump is None,
        s.air_assist_pump == Some(AirAssistPump::Idle) ==> rows[3].value == Some("Idle"@),
        s.air_assist_pump == Some(AirAssistPump::Run) ==> rows[3].value == Some("Run"@),
        rows[4].label == "Fume Extr"@,
        rows[4].value is None <==> s.fume_extraction_fan is None,
        s.fume_extraction_fan == Some(FumeExtractionFan::Idle) ==> rows[4].value == Some("Idle"@),
        s.fume_extraction_fan == Some(FumeExtractionFan::Run) ==> rows[4].value == Some("Run"@),
{
    reveal_strlit("R");
    reveal_strlit("A");
    reveal_strlit("G");
    reveal_strlit(" ");
}

/// Each row of the diagnostics screen shows its own figure: the revision,
/// the uptime, link age and time sync age in seconds (`<n>s`), the boot
/// reason by its label, the address, gateway and first DNS server of the
/// link where it has an address, the wall clock where it is known, and each
/// traffic counter under its own label.
pub proof fn lemma_diagnostics_rows_show_their_figures(d: DiagnosticsInputs, rows: Seq<RowView>)
    requires
        rows == diagnostics_rows(d),
    ensures
        rows.len() == 15,
        rows[0].label == "Git Revision"@ && rows[0].value == Some(d.git_revision@),
        rows[1].label == "Uptime"@ && rows[1].value == Some(decimal(d.uptime_secs as nat) + "s"@),
        rows[6].label == "Conn. Age"@ && rows[6].value == Some(decimal(d.link_age_secs as nat) + "s"@),
        rows[8].label == "Time Age"@ && rows[8].value == Some(decimal(d.time_sync_age_secs as nat) + "s"@),
        rows[9].label == "#Events Rx"@ && rows[9].value == Some(decimal(d.events_received as nat)),
        rows[10].label == "#Rx Fail"@ && rows[10].value == Some(decimal(d.receive_failures as nat)),
        rows[11].label == "#Tx Buf Ins"@ && rows[11].value == Some(decimal(d.transmit_buffer_insertions as nat)),
        rows[12].label == "#Msgs Tx"@ && rows[12].value == Some(decimal(d.messages_transmitted as nat)),
        rows[13].label == "#Tx Fail Buf"@ && rows[13].value == Some(decimal(d.transmit_buffer_failures as nat)),
        rows[14].label == "#Tx Fail Net"@ && rows[14].value == Some(decimal(d.transmit_network_failures as nat)),
        rows[2].label == "Boot Reason"@,
        d.boot_reason == BootReason::WatchdogForced ==> rows[2].value == Some("Forced Reset"@),
        d.boot_reason == BootReason::WatchdogTimeout ==> rows[2].value == Some("Watchdog Timeout"@),
        d.boot_reason == BootReason::Normal ==> rows[2].value == Some("Normal"@),
        rows[3].label == "IP"@ && rows[4].label == "Gateway"@ && rows[5].label == "DNS 1"@,
        d.ipv4_config is None ==> rows[3].value is None && rows[4].value is None && rows[5].value is None,
        d.ipv4_config matches Some(c) ==> {
            &&& rows[3].value == Some(ipv4_text(c.address))
            &&& (c.gateway matches Some(g) ==> rows[4].value == Some(ipv4_text(g)))
            &&& (c.dns_servers@.len() > 0 ==> rows[5].value == Some(ipv4_text(c.dns_servers@[0])))
            &&& (c.dns_servers@.len() == 0 ==> rows[5].value is None)
        },
        rows[7].label == "Time"@,
        rows[7].value == match d.wall_time_secs {
            Some(t) => Some(decimal(t as nat)),
            None => None,
        },
{
}

/// The network side records what it reports: a new address configuration
/// replaces the old one, and the broker link is up after a connection and
/// down after a disconnection, until the next report; a lagging feed changes
/// nothing.
pub proof fn lemma_network_recorded(s: DisplayDataState, n: NetworkEvent)
    ensures
        n matches NetworkEvent::NetworkConnected(c) ==> {
            &&& applied(s, DisplayInput::Network(n)).ipv4_config == Some(c)
            &&& applied(s, DisplayInput::Network(n)).mqtt_broker_connected == s.mqtt_broker_connected
        },
        n is MqttBrokerConnected ==> {
            &&& applied(s, DisplayInput::Network(n)).mqtt_broker_connected
            &&& applied(s, DisplayInput::Network(n)).ipv4_config == s.ipv4_config
        },
        n is MqttBrokerDisconnected ==> {
            &&& !applied(s, DisplayInput::Network(n)).mqtt_broker_connected
            &&& applied(s, DisplayInput::Network(n)).ipv4_config == s.ipv4_config
        },
{
}

/// The network side and the controller feed touch separate parts of what the
/// display knows: a network report changes nothing of the machine, and a
/// controller event changes nothing of the network.
pub proof fn lemma_inputs_touch_separate_state(s: DisplayDataState, input: DisplayInput)
    ensures
        input is Network ==> {
            let t = applied(s, input);
            &&& t.controller_git_rev == s.controller_git_rev
            &&& t.controller_uptime == s.controller_uptime
            &&& t.air_assist_demand == s.air_assist_demand
            &&& t.chassis_intrusion == s.chassis_intrusion
            &&& t.coolant_resevoir_level == s.coolant_resevoir_level
            &&& t.fume_extraction_mode == s.fume_extraction_mode
            &&& t.machine_power == s.machine_power
            &&& t.machine_run_status == s.machine_run_status
            &&& t.temperatures == s.temperatures
            &&& t.alarms == s.alarms
            &&& t.lockout == s.lockout
            &&& t.air_assist_pump == s.air_assist_pump
            &&& t.fume_extraction_fan == s.fume_extraction_fan
            &&& t.laser_enable == s.laser_enable
            &&& t.machine_enable == s.machine_enable
            &&& t.status_lamp == s.status_lamp
        },
        !(input is Network) ==> {
            let t = applied(s, input);
            &&& t.ipv4_config == s.ipv4_config
            &&& t.mqtt_broker_connected == s.mqtt_broker_connected
        },
        input is Telemetry ==> applied(s, input).controller_uptime == Some(
            input->Telemetry_0.timestamp_milliseconds,
        ),
{
}

/// A later report replaces an earlier one: once the machine power was
/// reported, the display shows that report whatever else arrives after it,
/// until the next power report.
pub proof fn lemma_latest_power_report_shown(
    s: DisplayDataState,
    ts: u64,
    power: MachinePower,
    other: DisplayInput,
)
    requires
        !(other matches DisplayInput::Telemetry(Event { kind: EventKind::Observation(ObservationEvent::MachinePower(_)), .. })),
    ensures
        applied(
            applied(
                s,
                DisplayInput::Telemetry(
                    Event {
                        timestamp_milliseconds: ts,
                        kind: EventKind::Observation(ObservationEvent::MachinePower(power)),
                    },
                ),
            ),
            other,
        ).machine_power == Some(power),
{
}


/// How a measurement is coloured on screen.
#[derive(Clone, Copy, Debug, PartialEq, Eq, Structural)]
pub enum Severity {
    Normal,
    Warning,
    Critical,
}

/// One line of a screen: a label, the value (or the "unknown" marker where
/// `None`), and how to colour it where it matters.
pub struct Row {
    pub label: &'static str,
    pub value: Option<String>,
    pub severity: Option<Severity>,
}

pub struct RowView {
    pub label: Seq<char>,
    pub value: Option<Seq<char>>,
    pub severity: Option<Severity>,
}

impl View for Row {
    type V = RowView;

    open spec fn view(&self) -> RowView {
        RowView {
            label: self.label@,
            value: match self.value {
                Some(v) => Some(v@),
                None => None,
            },
            severity: self.severity,
        }
    }
}

pub open spec fn row_views(v: Seq<Row>) -> Seq<RowView> {
    v.map_values(|r: Row| r@)
}

pub open spec fn row(label: Seq<char>, value: Option<Seq<char>>, severity: Option<Severity>) -> RowView {
    RowView { label, value, severity }
}

fn push_row(v: &mut Vec<Row>, label: &'static str, value: Option<&str>, severity: Option<Severity>)
    ensures
        row_views(final(v)@) == row_views(old(v)@).push(
            row(
                label@,
                match value {
                    Some(t) => Some(t@),
                    None => None,
                },
                severity,
            ),
        ),
{
    let value = match value {
        Some(t) => Some(String::from_str(t)),
        None => None,
    };
    let r = Row { label, value, severity };
    let ghost rv = r@;
    v.push(r);
    proof {
        assert(row_views(v@) =~= row_views(old(v)@).push(rv));
    }
}

/// The rows of the inputs screen.
pub open spec fn inputs_rows(s: DisplayDataState) -> Seq<RowView> {
    seq![
        row(
            "Mach Power"@,
            match s.machine_power {
                Some(MachinePower::On) => Some("On"@),
                Some(MachinePower::Off) => Some("Off"@),
                None => None,
            },
            match s.machine_power {
                Some(MachinePower::On) => Some(Severity::Normal),
                Some(MachinePower::Off) => Some(Severity::Critical),
                None => None,
            },
        ),
        row(
            "Mach Run"@,
            match s.machine_run_status {
                Some(MachineRun::Idle) => Some("Idle"@),
                Some(MachineRun::Running) => Some("Running"@),
                None => None,
            },
            None,
        ),
        row(
            "Air Demand"@,
            match s.air_assist_demand {
                Some(AirAssistDemand::Idle) => Some("Idle"@),
                Some(AirAssistDemand::Demand) => Some("Demand"@),
                None => None,
            },
            None,
        ),
        row(
            "Extr Mode"@,
            match s.fume_extraction_mode {
                Some(FumeExtractionMode::Automatic) => Some("Auto"@),
                Some(FumeExtractionMode::OverrideRun) => Some("Manual"@),
                None => None,
            },
            None,
        ),
        row(
            "Chassis"@,
            match s.chassis_intrusion {
                Some(ChassisIntrusion::Normal) => Some("OK"@),
                Some(ChassisIntrusion::Intruded) => Some("Intrusion"@),
                None => None,
            },
            None,
        ),
        row(
            "Cool Level"@,
            match s.coolant_resevoir_level {
                Some(Some(CoolantResevoirLevel::Full)) => Some("Full"@),
                Some(Some(CoolantResevoirLevel::Low)) => Some("Low"@),
                Some(Some(CoolantResevoirLevel::Empty)) => Some("Empty"@),
                _ => None,
            },
            match s.coolant_resevoir_level {
                Some(Some(CoolantResevoirLevel::Full)) => Some(Severity::Normal),
                Some(Some(CoolantResevoirLevel::Low)) => Some(Severity::Warning),
                Some(Some(CoolantResevoirLevel::Empty)) => Some(Severity::Critical),
                _ => None,
            },
        ),
    ]
}

/// The rows of the inputs screen.
pub fn inputs_screen_rows(s: &DisplayDataState) -> (r: Vec<Row>)
    ensures
        row_views(r@) == inputs_rows(*s),
{
    let mut v: Vec<Row> = Vec::new();
    push_row(
        &mut v,
        "Mach Power",
        match s.machine_power {
            Some(MachinePower::On) => Some("On"),
            Some(MachinePower::Off) => Some("Off"),
            None => None,
        },
        match s.machine_power {
            Some(MachinePower::On) => Some(Severity::Normal),
            Some(MachinePower::Off) => Some(Severity::Critical),
            None => None,
        },
    );
    push_row(
        &mut v,
        "Mach Run",
        match s.machine_run_status {
            Some(MachineRun::Idle) => Some("Idle"),
            Some(MachineRun::Running) => Some("Running"),
            None => None,
        },
        None,
    );
    push_row(
        &mut v,
        "Air Demand",
        match s.air_assist_demand {
            Some(AirAssistDemand::Idle) => Some("Idle"),
            Some(AirAssistDemand::Demand) => Some("Demand"),
            None => None,
        },
        None,
    );
    push_row(
        &mut v,
        "Extr Mode",
        match s.fume_extraction_mode {
            Some(FumeExtractionMode::Automatic) => Some("Auto"),
            Some(FumeExtractionMode::OverrideRun) => Some("Manual"),
            None => None,
        },
        None,
    );
    push_row(
        &mut v,
        "Chassis",
        match s.chassis_intrusion {
            Some(ChassisIntrusion::Normal) => Some("OK"),
            Some(ChassisIntrusion::Intruded) => Some("Intrusion"),
            None => None,
        },
        None,
    );
    push_row(
        &mut v,
        "Cool Level",
        match s.coolant_resevoir_level {
            Some(Some(CoolantResevoirLevel::Full)) => Some("Full"),
            Some(Some(CoolantResevoirLevel::Low)) => Some("Low"),
            Some(Some(CoolantResevoirLevel::Empty)) => Some("Empty"),
            _ => None,
        },
        match s.coolant_resevoir_level {
            Some(Some(CoolantResevoirLevel::Full)) => Some(Severity::Normal),
            Some(Some(CoolantResevoirLevel::Low)) => Some(Severity::Warning),
            Some(Some(CoolantResevoirLevel::Empty)) => Some(Severity::Critical),
            _ => None,
        },
    );
    proof {
        assert(row_views(v@) =~= inputs_rows(*s));
    }
    v
}

/// How the status lamp shows: a letter for each light that is on.
pub open spec fn status_lamp_text(l: StatusLamp) -> Seq<char> {
    (if l.red {
        "R"@
    } else {
        " "@
    }) + " "@ + (if l.amber {
        "A"@
    } else {
        " "@
    }) + " "@ + (if l.green {
        "G"@
    } else {
        " "@
    })
}

fn status_lamp_string(l: StatusLamp) -> (s: String)
    ensures
        s@ == status_lamp_text(l),
{
    let mut s = String::from_str(if l.red { "R" } else { " " });
    s.append(" ");
    s.append(if l.amber { "A" } else { " " });
    s.append(" ");
    s.append(if l.green { "G" } else { " " });
    s
}

/// The rows of the outputs screen.
pub open spec fn outputs_rows(s: DisplayDataState) -> Seq<RowView> {
    seq![
        row(
            "Status L"@,
            match s.status_lamp {
                Some(l) => Some(status_lamp_text(l)),
                None => None,
            },
            None,
        ),
        row(
            "Mach En"@,
            match s.machine_enable {
                Some(MachineEnable::Inhibit) => Some("Inhibited"@),
                Some(MachineEnable::Enable) => Some("Enabled"@),
                None => None,
            },
            None,
        ),
        row(
            "Laser En"@,
            match s.laser_enable {
                Some(LaserEnable::Inhibit) => Some("Inhibited"@),
                Some(LaserEnable::Enable) => Some("Enabled"@),
                None => None,
            },
            None,
        ),
        row(
            "Air Pump"@,
            match s.air_assist_pump {
                Some(AirAssistPump::Idle) => Some("Idle"@),
                Some(AirAssistPump::Run) => Some("Run"@),
                None => None,
            },
            None,
        ),
        row(
            "Fume Extr"@,
            match s.fume_extraction_fan {
                Some(FumeExtractionFan::Idle) => Some("Idle"@),
                Some(FumeExtractionFan::Run) => Some("Run"@),
                None => None,
            },
            None,
        ),
    ]
}

/// The rows of the outputs screen.
pub fn outputs_screen_rows(s: &DisplayDataState) -> (r: Vec<Row>)
    ensures
        row_views(r@) == outputs_rows(*s),
{
    let mut v: Vec<Row> = Vec::new();
    match s.status_lamp {
        Some(l) => {
            let text = status_lamp_string(l);
            push_row(&mut v, "Status L", Some(text.as_str()), None);
        },
        None => {
            push_row(&mut v, "Status L", None, None);
        },
    }
    push_row(
        &mut v,
        "Mach En",
        match s.machine_enable {
            Some(MachineEnable::Inhibit) => Some("Inhibited"),
            Some(MachineEnable::Enable) => Some("Enabled"),
            None => None,
        },
        None,
    );
    push_row(
        &mut v,
        "Laser En",
        match s.laser_enable {
            Some(LaserEnable::Inhibit) => Some("Inhibited"),
            Some(LaserEnable::Enable) => Some("Enabled"),
            None => None,
        },
        None,
    );
    push_row(
        &mut v,
        "Air Pump",
        match s.air_assist_pump {
            Some(AirAssistPump::Idle) => Some("Idle"),
            Some(AirAssistPump::Run) => Some("Run"),
            None => None,
        },
        None,
    );
    push_row(
        &mut v,
        "Fume Extr",
        match s.fume_extraction_fan {
            Some(FumeExtractionFan::Idle) => Some("Idle"),
            Some(FumeExtractionFan::Run) => Some("Run"),
            None => None,
        },
        None,
    );
    proof {
        assert(row_views(v@) =~= outputs_rows(*s));
    }
    v
}


/// The dotted-decimal text of an IPv4 address.
pub open spec fn ipv4_text(a: [u8; 4]) -> Seq<char> {
    decimal(a[0] as nat) + "."@ + decimal(a[1] as nat) + "."@ + decimal(a[2] as nat) + "."@
        + decimal(a[3] as nat)
}

/// The dotted-decimal text of an IPv4 address.
pub fn ipv4_string(a: &[u8; 4]) -> (s: String)
    ensures
        s@ == ipv4_text(*a),
{
    let mut s = u64_to_text(a[0] as u64);
    s.append(".");
    s.append(u64_to_text(a[1] as u64).as_str());
    s.append(".");
    s.append(u64_to_text(a[2] as u64).as_str());
    s.append(".");
    s.append(u64_to_text(a[3] as u64).as_str());
    s
}

/// A number of seconds, as shown: the number followed by `s`.
pub open spec fn seconds_text(n: u64) -> Seq<char> {
    decimal(n as nat) + "s"@
}

fn seconds_string(n: u64) -> (s: String)
    ensures
        s@ == seconds_text(n),
{
    let mut s = u64_to_text(n);
    s.append("s");
    s
}

/// What the diagnostics screen reports, as read when it is drawn.
pub struct DiagnosticsInputs {
    pub git_revision: String,
    pub uptime_secs: u64,
    pub boot_reason: BootReason,
    pub ipv4_config: Option<Ipv4Config>,
    pub link_age_secs: u64,
    pub wall_time_secs: Option<u64>,
    pub time_sync_age_secs: u64,
    pub events_received: u64,
    pub receive_failures: u64,
    pub transmit_buffer_insertions: u64,
    pub messages_transmitted: u64,
    pub transmit_buffer_failures: u64,
    pub transmit_network_failures: u64,
}

/// Whether every value fits the text buffer the diagnostics screen writes it
/// into (16 characters for the uptime and link age, 10 for the others), and
/// a link that is up has a gateway.
pub open spec fn diagnostics_drawable(d: DiagnosticsInputs) -> bool {
    &&& d.uptime_secs < 1_000_000_000_000_000
    &&& d.link_age_secs < 1_000_000_000_000_000
    &&& (d.wall_time_secs matches Some(t) ==> t < 10_000_000_000)
    &&& d.time_sync_age_secs < 1_000_000_000
    &&& d.events_received < 10_000_000_000
    &&& d.receive_failures < 10_000_000_000
    &&& d.transmit_buffer_insertions < 10_000_000_000
    &&& d.messages_transmitted < 10_000_000_000
    &&& d.transmit_buffer_failures < 10_000_000_000
    &&& d.transmit_network_failures < 10_000_000_000
    &&& (d.ipv4_config matches Some(c) ==> c.gateway is Some)
}

/// The rows of the diagnostics screen.
pub open spec fn diagnostics_rows(d: DiagnosticsInputs) -> Seq<RowView> {
    seq![
        row("Git Revision"@, Some(d.git_revision@), None),
        row("Uptime"@, Some(seconds_text(d.uptime_secs)), None),
        row(
            "Boot Reason"@,
            Some(
                match d.boot_reason {
                    BootReason::WatchdogForced => "Forced Reset"@,
                    BootReason::WatchdogTimeout => "Watchdog Timeout"@,
                    BootReason::Normal => "Normal"@,
                },
            ),
            None,
        ),
        row(
            "IP"@,
            match d.ipv4_config {
                Some(c) => Some(ipv4_text(c.address)),
                None => None,
            },
            None,
        ),
        row(
            "Gateway"@,
            match d.ipv4_config {
                Some(c) => Some(ipv4_text(c.gateway.unwrap())),
                None => None,
            },
            None,
        ),
        row(
            "DNS 1"@,
            match d.ipv4_config {
                Some(c) => if c.dns_servers@.len() > 0 {
                    Some(ipv4_text(c.dns_servers@[0]))
                } else {
                    None
                },
                None => None,
            },
            None,
        ),
        row("Conn. Age"@, Some(seconds_text(d.link_age_secs)), None),
        row(
            "Time"@,
            match d.wall_time_secs {
                Some(t) => Some(decimal(t as nat)),
                None => None,
            },
            None,
        ),
        row("Time Age"@, Some(seconds_text(d.time_sync_age_secs)), None),
        row("#Events Rx"@, Some(decimal(d.events_received as nat)), None),
        row("#Rx Fail"@, Some(decimal(d.receive_failures as nat)), None),
        row("#Tx Buf Ins"@, Some(decimal(d.transmit_buffer_insertions as nat)), None),
        row("#Msgs Tx"@, Some(decimal(d.messages_transmitted as nat)), None),
        row("#Tx Fail Buf"@, Some(decimal(d.transmit_buffer_failures as nat)), None),
        row("#Tx Fail Net"@, Some(decimal(d.transmit_network_failures as nat)), None),
    ]
}

fn push_number_row(v: &mut Vec<Row>, label: &'static str, n: u64)
    ensures
        row_views(final(v)@) == row_views(old(v)@).push(
            row(label@, Some(decimal(n as nat)), None),
        ),
{
    let t = u64_to_text(n);
    push_row(v, label, Some(t.as_str()), None);
}

/// The rows of the diagnostics screen.
pub fn diagnostics_screen_rows(d: &DiagnosticsInputs) -> (r: Vec<Row>)
    requires
        diagnostics_drawable(*d),
    ensures
        row_views(r@) == diagnostics_rows(*d),
{
    let mut v: Vec<Row> = Vec::new();
    push_row(&mut v, "Git Revision", Some(d.git_revision.as_str()), None);
    let up = seconds_string(d.uptime_secs);
    push_row(&mut v, "Uptime", Some(up.as_str()), None);
    push_row(&mut v, "Boot Reason", Some(boot_reason_label(d.boot_reason)), None);
    match &d.ipv4_config {
        Some(c) => {
            let ip = ipv4_string(&c.address);
            push_row(&mut v, "IP", Some(ip.as_str()), None);
            let gw = match &c.gateway {
                Some(g) => ipv4_string(g),
                None => String::new(),
            };
            push_row(&mut v, "Gateway", Some(gw.as_str()), None);
            if c.dns_servers.len() > 0 {
                let dns = ipv4_string(&c.dns_servers[0]);
                push_row(&mut v, "DNS 1", Some(dns.as_str()), None);
            } else {
                push_row(&mut v, "DNS 1", None, None);
            }
        },
        None => {
            push_row(&mut v, "IP", None, None);
            push_row(&mut v, "Gateway", None, None);
            push_row(&mut v, "DNS 1", None, None);
        },
    }
    let age = seconds_string(d.link_age_secs);
    push_row(&mut v, "Conn. Age", Some(age.as_str()), None);
    match d.wall_time_secs {
        Some(t) => {
            push_number_row(&mut v, "Time", t);
        },
        None => {
            push_row(&mut v, "Time", None, None);
        },
    }
    let sync_age = seconds_string(d.time_sync_age_secs);
    push_row(&mut v, "Time Age", Some(sync_age.as_str()), None);
    push_number_row(&mut v, "#Events Rx", d.events_received);
    push_number_row(&mut v, "#Rx Fail", d.receive_failures);
    push_number_row(&mut v, "#Tx Buf Ins", d.transmit_buffer_insertions);
    push_number_row(&mut v, "#Msgs Tx", d.messages_transmitted);
    push_number_row(&mut v, "#Tx Fail Buf", d.transmit_buffer_failures);
    push_number_row(&mut v, "#Tx Fail Net", d.transmit_network_failures);
    proof {
        assert(row_views(v@) =~= diagnostics_rows(*d));
    }
    v
}

/// The rows of the telemetry module screen: firmware revision, uptime and
/// boot reason. The uptime is written into a 16-character buffer.
pub fn telemetry_module_rows(git_revision: &str, uptime_secs: u64, boot_reason: BootReason) -> (r:
    Vec<Row>)
    requires
        uptime_secs < 1_000_000_000_000_000,
    ensures
        row_views(r@) == seq![
            row("Rev"@, Some(git_revision@), None),
            row("Up"@, Some(seconds_text(uptime_secs)), None),
            row(
                "Bt."@,
                Some(
                    match boot_reason {
                        BootReason::WatchdogForced => "Forced Reset"@,
                        BootReason::WatchdogTimeout => "Watchdog Timeout"@,
                        BootReason::Normal => "Normal"@,
                    },
                ),
                None,
            ),
        ],
{
    let mut v: Vec<Row> = Vec::new();
    push_row(&mut v, "Rev", Some(git_revision), None);
    let up = seconds_string(uptime_secs);
    push_row(&mut v, "Up", Some(up.as_str()), None);
    push_row(&mut v, "Bt.", Some(boot_reason_label(boot_reason)), None);
    proof {
        let ghost expected = seq![
            row("Rev"@, Some(git_revision@), None),
            row("Up"@, Some(seconds_text(uptime_secs)), None),
            row(
                "Bt."@,
                Some(
                    match boot_reason {
                        BootReason::WatchdogForced => "Forced Reset"@,
                        BootReason::WatchdogTimeout => "Watchdog Timeout"@,
                        BootReason::Normal => "Normal"@,
                    },
                ),
                None,
            ),
        ];
        assert(row_views(v@) =~= expected);
    }
    v
}

/// The conditions the controller monitors.
#[derive(Clone, Copy, Debug, PartialEq, Eq, Structural)]
pub enum MonitorKind {
    LogicPowerSupplyNotPresent,
    ChassisIntrusion,
    CoolantResevoirLevelSensorFault,
    CoolantResevoirLevel,
    TemperatureSensorFault,
    CoolantFlowTemperature,
    CoolantResevoirTemperature,
}

/// How serious the controller judges a monitored condition.
#[derive(Clone, Copy, Debug, PartialEq, Eq, Structural)]
pub enum MonitorSeverity {
    Normal,
    Warn,
    Critical,
}

/// The colours of monitor lines.
#[derive(Clone, Copy, Debug, PartialEq, Eq, Structural)]
pub enum Colour {
    Green,
    Yellow,
    Red,
}

pub open spec fn monitor_name(k: MonitorKind) -> Seq<char> {
    match k {
        MonitorKind::LogicPowerSupplyNotPresent => "Logic Power Inop."@,
        MonitorKind::ChassisIntrusion => "Chassis Intrusion"@,
        MonitorKind::CoolantResevoirLevelSensorFault => "Cool. Lvl. S. Fault"@,
        MonitorKind::CoolantResevoirLevel => "Coolant Res. Level"@,
        MonitorKind::TemperatureSensorFault => "Temp. Sensor Fault"@,
        MonitorKind::CoolantFlowTemperature => "Coolant Flow Hot"@,
        MonitorKind::CoolantResevoirTemperature => "Coolant Res. Hot"@,
    }
}

pub open spec fn severity_colour(s: MonitorSeverity) -> Colour {
    match s {
        MonitorSeverity::Normal => Colour::Green,
        MonitorSeverity::Warn => Colour::Yellow,
        MonitorSeverity::Critical => Colour::Red,
    }
}

/// How many monitor lines fit on the screen.
pub const MAX_MONITOR_LINES: usize = 7;

fn monitor_name_str(k: MonitorKind) -> (s: &'static str)
    ensures
        s@ == monitor_name(k),
{
    match k {
        MonitorKind::LogicPowerSupplyNotPresent => "Logic Power Inop.",
        MonitorKind::ChassisIntrusion => "Chassis Intrusion",
        MonitorKind::CoolantResevoirLevelSensorFault => "Cool. Lvl. S. Fault",
        MonitorKind::CoolantResevoirLevel => "Coolant Res. Level",
        MonitorKind::TemperatureSensorFault => "Temp. Sensor Fault",
        MonitorKind::CoolantFlowTemperature => "Coolant Flow Hot",
        MonitorKind::CoolantResevoirTemperature => "Coolant Res. Hot",
    }
}

/// The lines of the monitors screen: the first monitors that fit, each named
/// and coloured by its severity.
pub fn monitor_lines(monitors: &Vec<(MonitorKind, MonitorSeverity)>) -> (r: Vec<
    (&'static str, Colour),
>)
    ensures
        r@.len() == if monitors@.len() < MAX_MONITOR_LINES {
            monitors@.len()
        } else {
            MAX_MONITOR_LINES as nat
        },
        forall|i: int|
            0 <= i < r@.len() ==> (#[trigger] r@[i]).0@ == monitor_name(monitors@[i].0) && r@[i].1
                == severity_colour(monitors@[i].1),
{
    let mut r: Vec<(&'static str, Colour)> = Vec::new();
    let mut i: usize = 0;
    while i < monitors.len() && i < MAX_MONITOR_LINES
        invariant
            i <= monitors@.len(),
            i <= MAX_MONITOR_LINES,
            r@.len() == i,
            forall|j: int|
                0 <= j < i ==> (#[trigger] r@[j]).0@ == monitor_name(monitors@[j].0) && r@[j].1
                    == severity_colour(monitors@[j].1),
        decreases monitors@.len() - i,
    {
        let (kind, severity) = monitors[i];
        let colour = match severity {
            MonitorSeverity::Normal => Colour::Green,
            MonitorSeverity::Warn => Colour::Yellow,
            MonitorSeverity::Critical => Colour::Red,
        };
        r.push((monitor_name_str(kind), colour));
        i = i + 1;
    }
    r
}

/// The screen the home position shows: the monitors where any of them is
/// worse than normal, the summary otherwise (and while nothing is known).
pub fn auto_summary_screen(overall: Option<MonitorSeverity>) -> (s: Screen)
    ensures
        s == match overall {
            Some(MonitorSeverity::Warn) | Some(MonitorSeverity::Critical) => Screen::Monitors,
            _ => Screen::Summary,
        },
{
    match overall {
        Some(MonitorSeverity::Warn) | Some(MonitorSeverity::Critical) => Screen::Monitors,
        _ => Screen::Summary,
    }
}

} // verus!
