//! Metrics in the InfluxDB line protocol.
//!
//! Values whose text comes from elsewhere stand here as that text: the
//! `Debug` names of the machine controller's states, and the `Display` text
//! of its floating-point readings.
use super::text::{bool_text, bool_to_text, decimal, u128_to_text, u64_to_text};
use vstd::prelude::*;

verus! {

/// Why the telemetry module last started.
#[derive(Clone, Copy, Debug, PartialEq, Eq, Structural)]
pub enum BootReason {
    Normal,
    WatchdogTimeout,
    WatchdogForced,
}

/// How a boot reason prints with `{:?}`.
pub open spec fn boot_reason_name(r: BootReason) -> Seq<char> {
    match r {
        BootReason::Normal => "Normal"@,
        BootReason::WatchdogTimeout => "WatchdogTimeout"@,
        BootReason::WatchdogForced => "WatchdogForced"@,
    }
}

impl BootReason {
    /// How the boot reason prints with `{:?}`.
    pub fn name(&self) -> (s: &'static str)
        ensures
            s@ == boot_reason_name(*self),
    {
        match self {
            BootReason::Normal => "Normal",
            BootReason::WatchdogTimeout => "WatchdogTimeout",
            BootReason::WatchdogForced => "WatchdogForced",
        }
    }
}

/// Facts about the telemetry module itself.
pub struct SystemInformation {
    pub git_revision: String,
    pub last_boot_reason: BootReason,
    pub uptime_milliseconds: u64,
}

/// The state of the module's network link.
pub struct NetworkState {
    /// How long ago the link last changed, in seconds.
    pub connection_age_secs: u64,
}

/// The module's wall clock.
pub struct TimeMetrics {
    pub unix_epoch_nanoseconds: u64,
    pub sync_age_nanoseconds: u64,
}

/// Counters of the module's telemetry traffic.
pub struct Statistics {
    pub events_received: u64,
    pub receive_failures: u64,
    pub metrics_added_to_transmit_buffer: u64,
    pub messages_transmitted: u64,
    pub tramsit_buffer_failures: u64,
    pub transmit_network_failures: u64,
}

/// A controller (or cooler) start-up: its firmware revision and the `Debug`
/// text of its boot reason.
pub struct BootEvent {
    pub git_revision: String,
    pub last_boot_reason: String,
}

/// The sensors of the controller; each reading is the `Display` text of the
/// temperature, or `None` where the sensor failed.
pub struct ControllerTemperatures {
    pub onboard: Option<String>,
    pub electronics_bay_top: Option<String>,
    pub laser_chamber: Option<String>,
    pub coolant_flow: Option<String>,
    pub coolant_return: Option<String>,
}

/// The sensors of the cooler; each reading is the `Display` text of the
/// temperature, or `None` where the sensor failed.
pub struct CoolerTemperatures {
    pub onboard: Option<String>,
    pub internal_ambient: Option<String>,
    pub reservoir_evaporator_coil: Option<String>,
    pub reservoir_left_side: Option<String>,
    pub reservoir_right_side: Option<String>,
    pub coolant_pump_motor: Option<String>,
}

/// What the controller observed. State values are their `Debug` text.
pub enum ObservationEvent {
    TemperaturesA(ControllerTemperatures),
    AirAssistDemand(String),
    ChassisIntrusion(String),
    FumeExtractionMode(String),
    MachinePower(String),
    MachineRun(String),
    TemperaturesB(CoolerTemperatures),
    /// The `Display` text of the flow rate in litres per minute.
    CoolantFlow(String),
    CoolantReservoirLevel(String),
}

/// The three lights of the status lamp.
#[derive(Clone, Copy, Debug, PartialEq, Eq, Structural)]
pub struct StatusLamp {
    pub red: bool,
    pub amber: bool,
    pub green: bool,
}

/// What the controller switched. State values are their `Debug` text.
pub enum ControlEvent {
    AirAssistPump(String),
    FumeExtractionFan(String),
    LaserEnable(String),
    MachineEnable(String),
    StatusLamp(StatusLamp),
    CoolerCompressor(String),
    CoolerRadiatorFan(String),
    CoolantPump(String),
}

/// An event reported by the machine controller. State values are their
/// `Debug` text.
pub enum EventKind {
    Boot(BootEvent),
    CoolerBoot(BootEvent),
    /// The `Debug` text of the state of each monitor, in the order of
    /// `monitor_field`.
    MonitorsChanged(Vec<String>),
    LockoutChanged(String),
    CoolingEnableChanged(String),
    CoolingDemandChanged(String),
    Observation(ObservationEvent),
    Control(ControlEvent),
}

/// What a metric reports.
pub enum MetricKind {
    TelemetryModuleSystemInformation(SystemInformation),
    TelemetryModuleNetworkState(NetworkState),
    TelemetryModuleTime(TimeMetrics),
    TelemetryModuleStatistics(Statistics),
    PeripheralControllerEvent(EventKind),
}

/// A data point: what it reports, and when (nanoseconds since the Unix
/// epoch), where the time is known.
pub struct Metric {
    pub timestamp: Option<u128>,
    pub value: MetricKind,
}

/// The longest line, in bytes, that a metric may make.
pub const BUFFER_FREE_SPACE_THRESHOLD: usize = 2048;

/// How many monitors the controller reports.
pub const NUM_MONITORS: usize = 11;

/// The end of every line: the timestamp, where known, and a newline.
pub open spec fn timestamp_text(ts: Option<u128>) -> Seq<char> {
    match ts {
        Some(n) => " "@ + decimal(n as nat) + "\n"@,
        None => "\n"@,
    }
}

/// A line whose single field holds a quoted state.
pub open spec fn debug_line(measurement: Seq<char>, value: Seq<char>, ts: Seq<char>) -> Seq<char> {
    measurement + " value=\""@ + value + "\""@ + ts
}

/// A line whose single field holds a number in a unit.
pub open spec fn numerical_line(
    measurement: Seq<char>,
    unit: Seq<char>,
    value: Seq<char>,
    ts: Seq<char>,
) -> Seq<char> {
    measurement + ",unit="@ + unit + " value="@ + value + ts
}

/// The fields so far, after the reading of one more sensor: sensors that
/// failed are left out, and fields are separated by commas.
pub open spec fn sensor_field(fields: Seq<char>, name: Seq<char>, reading: Option<String>) -> Seq<
    char,
> {
    match reading {
        Some(v) => if fields.len() == 0 {
            name + "="@ + v@
        } else {
            fields + ","@ + name + "="@ + v@
        },
        None => fields,
    }
}

/// A line of temperatures, or none where no sensor has a reading.
pub open spec fn temperature_line(source: Seq<char>, fields: Seq<char>, ts: Seq<char>) -> Option<
    Seq<char>,
> {
    if fields.len() == 0 {
        None
    } else {
        Some("observation.temperature,unit=C,source="@ + source + " "@ + fields + ts)
    }
}

pub open spec fn controller_fields(t: ControllerTemperatures) -> Seq<char> {
    sensor_field(
        sensor_field(
            sensor_field(
                sensor_field(
                    sensor_field(Seq::empty(), "onboard"@, t.onboard),
                    "electronics_bay_top"@,
                    t.electronics_bay_top,
                ),
                "laser_chamber"@,
                t.laser_chamber,
            ),
            "coolant_flow"@,
            t.coolant_flow,
        ),
        "coolant_return"@,
        t.coolant_return,
    )
}

pub open spec fn cooler_fields(t: CoolerTemperatures) -> Seq<char> {
    sensor_field(
        sensor_field(
            sensor_field(
                sensor_field(
                    sensor_field(
                        sensor_field(Seq::empty(), "onboard"@, t.onboard),
                        "internal_ambient"@,
                        t.internal_ambient,
                    ),
                    "reservoir_evaporator_coil"@,
                    t.reservoir_evaporator_coil,
                ),
                "reservoir_left_side"@,
                t.reservoir_left_side,
            ),
            "reservoir_right_side"@,
            t.reservoir_right_side,
        ),
        "coolant_pump_motor"@,
        t.coolant_pump_motor,
    )
}

/// The field name of monitor `i`.
pub open spec fn monitor_field_name(i: int) -> Seq<char> {
    if i == 0 {
        "mach_power_off"@
    } else if i == 1 {
        "chassis_intrusion"@
    } else if i == 2 {
        "cooler_comm_fault"@
    } else if i == 3 {
        "mach_elec_temp"@
    } else if i == 4 {
        "cool_elec_temp"@
    } else if i == 5 {
        "coolant_reservoir_level"@
    } else if i == 6 {
        "cool_flow_rate"@
    } else if i == 7 {
        "temp_sens_a"@
    } else if i == 8 {
        "temp_sens_b"@
    } else if i == 9 {
        "cool_flow_temp"@
    } else {
        "coolant_reservoir_temp"@
    }
}

/// The fields of the first `n` monitors.
pub open spec fn monitor_fields(values: Seq<String>, n: nat) -> Seq<char>
    decreases n,
{
    if n == 0 {
        Seq::empty()
    } else {
        let prev = monitor_fields(values, (n - 1) as nat);
        let sep = if n == 1 {
            Seq::<char>::empty()
        } else {
            ","@
        };
        prev + sep + monitor_field_name(n - 1) + "=\""@ + values[n - 1]@ + "\""@
    }
}

/// How many monitor fields a report of `values` makes.
pub open spec fn monitor_count(values: Seq<String>) -> nat {
    if values.len() < NUM_MONITORS {
        values.len()
    } else {
        NUM_MONITORS as nat
    }
}

/// The text of a controller event, or none where it makes no line.
pub open spec fn event_text(e: EventKind, ts: Seq<char>) -> Option<Seq<char>> {
    match e {
        EventKind::Boot(b) => Some(
            "peripheral_controller_system_info git_revision=\""@ + b.git_revision@
                + "\",boot_reason=\""@ + b.last_boot_reason@ + "\""@ + ts,
        ),
        EventKind::CoolerBoot(b) => Some(
            "cooler_system_info git_revision=\""@ + b.git_revision@ + "\",boot_reason=\""@
                + b.last_boot_reason@ + "\""@ + ts,
        ),
        EventKind::MonitorsChanged(v) => Some(
            "safety.monitors "@ + monitor_fields(v@, monitor_count(v@)) + ts,
        ),
        EventKind::LockoutChanged(v) => Some(debug_line("safety.lockout"@, v@, ts)),
        EventKind::CoolingEnableChanged(v) => Some(debug_line("cooling.enable"@, v@, ts)),
        EventKind::CoolingDemandChanged(v) => Some(debug_line("cooling.demand"@, v@, ts)),
        EventKind::Observation(o) => match o {
            ObservationEvent::TemperaturesA(t) => temperature_line(
                "peripheral_controller"@,
                controller_fields(t),
                ts,
            ),
            ObservationEvent::AirAssistDemand(v) => Some(
                debug_line("observation.air_assist_demand"@, v@, ts),
            ),
            ObservationEvent::ChassisIntrusion(v) => Some(
                debug_line("observation.chassis_intrusion"@, v@, ts),
            ),
            ObservationEvent::FumeExtractionMode(v) => Some(
                debug_line("observation.fume_extraction_mode"@, v@, ts),
            ),
            ObservationEvent::MachinePower(v) => Some(
                debug_line("observation.machine_power"@, v@, ts),
            ),
            ObservationEvent::MachineRun(v) => Some(debug_line("observation.machine_run"@, v@, ts)),
            ObservationEvent::TemperaturesB(t) => temperature_line("cooler"@, cooler_fields(t), ts),
            ObservationEvent::CoolantFlow(v) => Some(
                numerical_line("observation.coolant_flow"@, "L/min"@, v@, ts),
            ),
            ObservationEvent::CoolantReservoirLevel(v) => Some(
                debug_line("observation.coolant_reservoir_fluid_level"@, v@, ts),
            ),
        },
        EventKind::Control(c) => match c {
            ControlEvent::AirAssistPump(v) => Some(debug_line("control.air_assist_pump"@, v@, ts)),
            ControlEvent::FumeExtractionFan(v) => Some(
                debug_line("control.fume_extraction_fan"@, v@, ts),
            ),
            ControlEvent::LaserEnable(v) => Some(debug_line("control.laser_enable"@, v@, ts)),
            ControlEvent::MachineEnable(v) => Some(debug_line("control.machine_enable"@, v@, ts)),
            ControlEvent::StatusLamp(l) => Some(
                "control.status red=\""@ + bool_text(l.red) + "\",amber=\""@ + bool_text(l.amber)
                    + "\",green=\""@ + bool_text(l.green) + "\""@ + ts,
            ),
            ControlEvent::CoolerCompressor(v) => Some(
                debug_line("control.cooler_compressor"@, v@, ts),
            ),
            ControlEvent::CoolerRadiatorFan(v) => Some(
                debug_line("control.cooler_radiator_fan"@, v@, ts),
            ),
            ControlEvent::CoolantPump(v) => Some(debug_line("control.coolant_pump"@, v@, ts)),
        },
    }
}

/// The text a metric adds to the transmit buffer, or none where it makes no
/// line.
pub open spec fn metric_text(m: Metric) -> Option<Seq<char>> {
    let ts = timestamp_text(m.timestamp);
    match m.value {
        MetricKind::TelemetryModuleSystemInformation(v) => Some(
            "telemetry_module.system_info git_revision=\""@ + v.git_revision@
                + "\",boot_reason=\""@ + boot_reason_name(v.last_boot_reason) + "\""@ + ts
                + numerical_line(
                "telemetry_module.time.uptime"@,
                "ms"@,
                decimal(v.uptime_milliseconds as nat),
                ts,
            ),
        ),
        MetricKind::TelemetryModuleNetworkState(v) => Some(
            numerical_line(
                "telemetry_module.network.connection_age"@,
                "s"@,
                decimal(v.connection_age_secs as nat),
                ts,
            ),
        ),
        MetricKind::TelemetryModuleTime(v) => Some(
            "telemetry_module.time.wall,unit=ns unix_epoch="@ + decimal(
                v.unix_epoch_nanoseconds as nat,
            ) + ",sync_age="@ + decimal(v.sync_age_nanoseconds as nat) + ts,
        ),
        MetricKind::TelemetryModuleStatistics(v) => Some(
            "telemetry_module.statistics.receive events="@ + decimal(v.events_received as nat)
                + ",failures="@ + decimal(v.receive_failures as nat) + ts
                + "telemetry_module.statistics.transmit buffer_submissions="@ + decimal(
                v.metrics_added_to_transmit_buffer as nat,
            ) + ",messages="@ + decimal(v.messages_transmitted as nat) + ",buffer_failures="@
                + decimal(v.tramsit_buffer_failures as nat) + ",network_failures="@ + decimal(
                v.transmit_network_failures as nat,
            ) + ts,
        ),
        MetricKind::PeripheralControllerEvent(e) => event_text(e, ts),
    }
}


fn timestamp_string(ts: Option<u128>) -> (s: String)
    ensures
        s@ == timestamp_text(ts),
{
    match ts {
        Some(n) => {
            let mut s = String::from_str(" ");
            let digits = u128_to_text(n);
            s.append(digits.as_str());
            s.append("\n");
            s
        },
        None => String::from_str("\n"),
    }
}

fn debug_line_string(measurement: &str, value: &str, ts: &str) -> (s: String)
    ensures
        s@ == debug_line(measurement@, value@, ts@),
{
    let mut s = String::from_str(measurement);
    s.append(" value=\"");
    s.append(value);
    s.append("\"");
    s.append(ts);
    s
}

fn numerical_line_string(measurement: &str, unit: &str, value: &str, ts: &str) -> (s: String)
    ensures
        s@ == numerical_line(measurement@, unit@, value@, ts@),
{
    let mut s = String::from_str(measurement);
    s.append(",unit=");
    s.append(unit);
    s.append(" value=");
    s.append(value);
    s.append(ts);
    s
}

fn append_sensor(fields: &mut String, name: &str, reading: &Option<String>)
    ensures
        final(fields)@ == sensor_field(old(fields)@, name@, *reading),
{
    match reading {
        Some(v) => {
            if !fields.as_str().is_empty() {
                fields.append(",");
            }
            fields.append(name);
            fields.append("=");
            fields.append(v.as_str());
        },
        None => {},
    }
}

fn temperature_line_string(source: &str, fields: &String, ts: &str) -> (r: Option<String>)
    ensures
        match r {
            Some(s) => temperature_line(source@, fields@, ts@) == Some(s@),
            None => temperature_line(source@, fields@, ts@) is None,
        },
{
    if fields.as_str().is_empty() {
        return None;
    }
    let mut s = String::from_str("observation.temperature,unit=C,source=");
    s.append(source);
    s.append(" ");
    s.append(fields.as_str());
    s.append(ts);
    Some(s)
}

fn controller_fields_string(t: &ControllerTemperatures) -> (s: String)
    ensures
        s@ == controller_fields(*t),
{
    let mut s = String::new();
    append_sensor(&mut s, "onboard", &t.onboard);
    append_sensor(&mut s, "electronics_bay_top", &t.electronics_bay_top);
    append_sensor(&mut s, "laser_chamber", &t.laser_chamber);
    append_sensor(&mut s, "coolant_flow", &t.coolant_flow);
    append_sensor(&mut s, "coolant_return", &t.coolant_return);
    s
}

fn cooler_fields_string(t: &CoolerTemperatures) -> (s: String)
    ensures
        s@ == cooler_fields(*t),
{
    let mut s = String::new();
    append_sensor(&mut s, "onboard", &t.onboard);
    append_sensor(&mut s, "internal_ambient", &t.internal_ambient);
    append_sensor(&mut s, "reservoir_evaporator_coil", &t.reservoir_evaporator_coil);
    append_sensor(&mut s, "reservoir_left_side", &t.reservoir_left_side);
    append_sensor(&mut s, "reservoir_right_side", &t.reservoir_right_side);
    append_sensor(&mut s, "coolant_pump_motor", &t.coolant_pump_motor);
    s
}

/// The field name of monitor `i`.
pub fn monitor_field(i: usize) -> (s: &'static str)
    requires
        i < NUM_MONITORS,
    ensures
        s@ == monitor_field_name(i as int),
{
    match i {
        0 => "mach_power_off",
        1 => "chassis_intrusion",
        2 => "cooler_comm_fault",
        3 => "mach_elec_temp",
        4 => "cool_elec_temp",
        5 => "coolant_reservoir_level",
        6 => "cool_flow_rate",
        7 => "temp_sens_a",
        8 => "temp_sens_b",
        9 => "cool_flow_temp",
        _ => "coolant_reservoir_temp",
    }
}

fn monitors_string(values: &Vec<String>, ts: &str) -> (s: String)
    ensures
        s@ == "safety.monitors "@ + monitor_fields(values@, monitor_count(values@)) + ts@,
{
    let count: usize = if values.len() < NUM_MONITORS {
        values.len()
    } else {
        NUM_MONITORS
    };
    let mut fields = String::new();
    let mut i: usize = 0;
    while i < count
        invariant
            count == monitor_count(values@),
            count <= values.len(),
            count <= NUM_MONITORS,
            i <= count,
            fields@ == monitor_fields(values@, i as nat),
        decreases count - i,
    {
        let ghost prev = fields@;
        if i > 0 {
            fields.append(",");
        }
        fields.append(monitor_field(i));
        fields.append("=\"");
        fields.append(values[i].as_str());
        fields.append("\"");
        proof {
            let sep = if i + 1 == 1 {
                Seq::<char>::empty()
            } else {
                ","@
            };
            assert(monitor_fields(values@, (i + 1) as nat) == prev + sep + monitor_field_name(
                i as int,
            ) + "=\""@ + values@[i as int]@ + "\""@);
            if i == 0 {
                assert(prev + sep =~= prev);
            }
        }
        i = i + 1;
    }
    let mut s = String::from_str("safety.monitors ");
    s.append(fields.as_str());
    s.append(ts);
    s
}

fn boot_string(head: &str, b: &BootEvent, ts: &str) -> (s: String)
    ensures
        s@ == head@ + b.git_revision@ + "\",boot_reason=\""@ + b.last_boot_reason@ + "\""@ + ts@,
{
    let mut s = String::from_str(head);
    s.append(b.git_revision.as_str());
    s.append("\",boot_reason=\"");
    s.append(b.last_boot_reason.as_str());
    s.append("\"");
    s.append(ts);
    s
}

fn observation_string(o: &ObservationEvent, ts: &str) -> (r: Option<String>)
    ensures
        match r {
            Some(s) => event_text(EventKind::Observation(*o), ts@) == Some(s@),
            None => event_text(EventKind::Observation(*o), ts@) is None,
        },
{
    match o {
        ObservationEvent::TemperaturesA(t) => {
            let fields = controller_fields_string(t);
            temperature_line_string("peripheral_controller", &fields, ts)
        },
        ObservationEvent::AirAssistDemand(v) => Some(
            debug_line_string("observation.air_assist_demand", v.as_str(), ts),
        ),
        ObservationEvent::ChassisIntrusion(v) => Some(
            debug_line_string("observation.chassis_intrusion", v.as_str(), ts),
        ),
        ObservationEvent::FumeExtractionMode(v) => Some(
            debug_line_string("observation.fume_extraction_mode", v.as_str(), ts),
        ),
        ObservationEvent::MachinePower(v) => Some(
            debug_line_string("observation.machine_power", v.as_str(), ts),
        ),
        ObservationEvent::MachineRun(v) => Some(
            debug_line_string("observation.machine_run", v.as_str(), ts),
        ),
        ObservationEvent::TemperaturesB(t) => {
            let fields = cooler_fields_string(t);
            temperature_line_string("cooler", &fields, ts)
        },
        ObservationEvent::CoolantFlow(v) => Some(
            numerical_line_string("observation.coolant_flow", "L/min", v.as_str(), ts),
        ),
        ObservationEvent::CoolantReservoirLevel(v) => Some(
            debug_line_string("observation.coolant_reservoir_fluid_level", v.as_str(), ts),
        ),
    }
}

fn control_string(c: &ControlEvent, ts: &str) -> (s: String)
    ensures
        event_text(EventKind::Control(*c), ts@) == Some(s@),
{
    match c {
        ControlEvent::AirAssistPump(v) => debug_line_string(
            "control.air_assist_pump",
            v.as_str(),
            ts,
        ),
        ControlEvent::FumeExtractionFan(v) => debug_line_string(
            "control.fume_extraction_fan",
            v.as_str(),
            ts,
        ),
        ControlEvent::LaserEnable(v) => debug_line_string("control.laser_enable", v.as_str(), ts),
        ControlEvent::MachineEnable(v) => debug_line_string(
            "control.machine_enable",
            v.as_str(),
            ts,
        ),
        ControlEvent::StatusLamp(l) => {
            let mut s = String::from_str("control.status red=\"");
            s.append(bool_to_text(l.red));
            s.append("\",amber=\"");
            s.append(bool_to_text(l.amber));
            s.append("\",green=\"");
            s.append(bool_to_text(l.green));
            s.append("\"");
            s.append(ts);
            s
        },
        ControlEvent::CoolerCompressor(v) => debug_line_string(
            "control.cooler_compressor",
            v.as_str(),
            ts,
        ),
        ControlEvent::CoolerRadiatorFan(v) => debug_line_string(
            "control.cooler_radiator_fan",
            v.as_str(),
            ts,
        ),
        ControlEvent::CoolantPump(v) => debug_line_string("control.coolant_pump", v.as_str(), ts),
    }
}

fn event_string(e: &EventKind, ts: &str) -> (r: Option<String>)
    ensures
        match r {
            Some(s) => event_text(*e, ts@) == Some(s@),
            None => event_text(*e, ts@) is None,
        },
{
    match e {
        EventKind::Boot(b) => Some(
            boot_string("peripheral_controller_system_info git_revision=\"", b, ts),
        ),
        EventKind::CoolerBoot(b) => Some(boot_string("cooler_system_info git_revision=\"", b, ts)),
        EventKind::MonitorsChanged(v) => Some(monitors_string(v, ts)),
        EventKind::LockoutChanged(v) => Some(debug_line_string("safety.lockout", v.as_str(), ts)),
        EventKind::CoolingEnableChanged(v) => Some(
            debug_line_string("cooling.enable", v.as_str(), ts),
        ),
        EventKind::CoolingDemandChanged(v) => Some(
            debug_line_string("cooling.demand", v.as_str(), ts),
        ),
        EventKind::Observation(o) => observation_string(o, ts),
        EventKind::Control(c) => Some(control_string(c, ts)),
    }
}

impl Metric {
    pub fn new(timestamp: Option<u128>, value: MetricKind) -> (m: Self)
        ensures
            m.timestamp == timestamp,
            m.value == value,
    {
        Metric { timestamp, value }
    }

    /// The text the metric adds to the transmit buffer, or `None` where it
    /// makes no line (a temperature report in which no sensor has a
    /// reading).
    pub fn render(&self) -> (r: Option<String>)
        ensures
            match r {
                Some(s) => metric_text(*self) == Some(s@),
                None => metric_text(*self) is None,
            },
    {
        let ts = timestamp_string(self.timestamp);
        match &self.value {
            MetricKind::TelemetryModuleSystemInformation(v) => {
                let mut s = String::from_str("telemetry_module.system_info git_revision=\"");
                s.append(v.git_revision.as_str());
                s.append("\",boot_reason=\"");
                s.append(v.last_boot_reason.name());
                s.append("\"");
                s.append(ts.as_str());
                let uptime = u64_to_text(v.uptime_milliseconds);
                let line = numerical_line_string(
                    "telemetry_module.time.uptime",
                    "ms",
                    uptime.as_str(),
                    ts.as_str(),
                );
                s.append(line.as_str());
                Some(s)
            },
            MetricKind::TelemetryModuleNetworkState(v) => {
                let age = u64_to_text(v.connection_age_secs);
                Some(
                    numerical_line_string(
                        "telemetry_module.network.connection_age",
                        "s",
                        age.as_str(),
                        ts.as_str(),
                    ),
                )
            },
            MetricKind::TelemetryModuleTime(v) => {
                let mut s = String::from_str("telemetry_module.time.wall,unit=ns unix_epoch=");
                s.append(u64_to_text(v.unix_epoch_nanoseconds).as_str());
                s.append(",sync_age=");
                s.append(u64_to_text(v.sync_age_nanoseconds).as_str());
                s.append(ts.as_str());
                Some(s)
            },
            MetricKind::TelemetryModuleStatistics(v) => {
                let mut s = String::from_str("telemetry_module.statistics.receive events=");
                s.append(u64_to_text(v.events_received).as_str());
                s.append(",failures=");
                s.append(u64_to_text(v.receive_failures).as_str());
                s.append(ts.as_str());
                s.append("telemetry_module.statistics.transmit buffer_submissions=");
                s.append(u64_to_text(v.metrics_added_to_transmit_buffer).as_str());
                s.append(",messages=");
                s.append(u64_to_text(v.messages_transmitted).as_str());
                s.append(",buffer_failures=");
                s.append(u64_to_text(v.tramsit_buffer_failures).as_str());
                s.append(",network_failures=");
                s.append(u64_to_text(v.transmit_network_failures).as_str());
                s.append(ts.as_str());
                Some(s)
            },
            MetricKind::PeripheralControllerEvent(e) => event_string(e, ts.as_str()),
        }
    }
}


/// Every metric makes whole lines: its text, where it has one, ends with a
/// newline.
pub proof fn lemma_metric_text_ends_line(m: Metric)
    ensures
        metric_text(m) matches Some(l) ==> l.len() > 0 && l.last() == '\n',
{
    reveal_strlit("\n");
    let ts = timestamp_text(m.timestamp);
    assert(ts.len() > 0 && ts.last() == '\n');
}

/// The field `name=reading` of a sensor that has a reading; none for a
/// sensor that failed.
pub open spec fn reading_item(name: Seq<char>, reading: Option<String>) -> Seq<Seq<char>> {
    match reading {
        Some(v) => seq![name + "="@ + v@],
        None => Seq::empty(),
    }
}

/// Items separated by commas.
pub open spec fn comma_joined(items: Seq<Seq<char>>) -> Seq<char>
    decreases items.len(),
{
    if items.len() == 0 {
        Seq::empty()
    } else if items.len() == 1 {
        items[0]
    } else {
        comma_joined(items.drop_last()) + ","@ + items.last()
    }
}

proof fn lemma_comma_joined_empty(items: Seq<Seq<char>>)
    requires
        forall|i: int| 0 <= i < items.len() ==> #[trigger] items[i].len() > 0,
    ensures
        comma_joined(items).len() == 0 <==> items.len() == 0,
    decreases items.len(),
{
    if items.len() > 1 {
        lemma_comma_joined_empty(items.drop_last());
    }
}

proof fn lemma_sensor_field_joins(items: Seq<Seq<char>>, name: Seq<char>, reading: Option<String>)
    requires
        forall|i: int| 0 <= i < items.len() ==> #[trigger] items[i].len() > 0,
    ensures
        sensor_field(comma_joined(items), name, reading) == comma_joined(
            items + reading_item(name, reading),
        ),
        forall|i: int|
            0 <= i < (items + reading_item(name, reading)).len() ==> #[trigger] (items
                + reading_item(name, reading))[i].len() > 0,
{
    reveal_strlit("=");
    lemma_comma_joined_empty(items);
    let all = items + reading_item(name, reading);
    match reading {
        Some(v) => {
            let item = name + "="@ + v@;
            assert(item.len() > 0);
            assert(all.drop_last() =~= items);
            assert(all.last() == item);
            assert(all.len() == items.len() + 1);
            if items.len() == 0 {
                assert(all =~= seq![item]);
            }
        },
        None => {
            assert(all =~= items);
        },
    }
}

/// A cooler temperature report makes one line whose fields are, in this
/// order, `onboard`, `internal_ambient`, `reservoir_evaporator_coil`,
/// `reservoir_left_side`, `reservoir_right_side` and `coolant_pump_motor`,
/// each written `name=reading` with that sensor's own reading, those of
/// failed sensors left out and the rest separated by commas; with no reading
/// at all there is no line.
pub proof fn lemma_cooler_line_fields(t: CoolerTemperatures, ts: Option<u128>)
    ensures
        ({
            let items = reading_item("onboard"@, t.onboard) + reading_item(
                "internal_ambient"@,
                t.internal_ambient,
            ) + reading_item("reservoir_evaporator_coil"@, t.reservoir_evaporator_coil)
                + reading_item("reservoir_left_side"@, t.reservoir_left_side) + reading_item(
                "reservoir_right_side"@,
                t.reservoir_right_side,
            ) + reading_item("coolant_pump_motor"@, t.coolant_pump_motor);
            metric_text(
                Metric {
                    timestamp: ts,
                    value: MetricKind::PeripheralControllerEvent(
                        EventKind::Observation(ObservationEvent::TemperaturesB(t)),
                    ),
                },
            ) == if items.len() == 0 {
                None
            } else {
                Some(
                    "observation.temperature,unit=C,source=cooler "@ + comma_joined(items)
                        + timestamp_text(ts),
                )
            }
        }),
{
    let e = Seq::<Seq<char>>::empty();
    assert(comma_joined(e) =~= Seq::<char>::empty());
    let i1 = e + reading_item("onboard"@, t.onboard);
    lemma_sensor_field_joins(e, "onboard"@, t.onboard);
    let i2 = i1 + reading_item("internal_ambient"@, t.internal_ambient);
    lemma_sensor_field_joins(i1, "internal_ambient"@, t.internal_ambient);
    let i3 = i2 + reading_item("reservoir_evaporator_coil"@, t.reservoir_evaporator_coil);
    lemma_sensor_field_joins(i2, "reservoir_evaporator_coil"@, t.reservoir_evaporator_coil);
    let i4 = i3 + reading_item("reservoir_left_side"@, t.reservoir_left_side);
    lemma_sensor_field_joins(i3, "reservoir_left_side"@, t.reservoir_left_side);
    let i5 = i4 + reading_item("reservoir_right_side"@, t.reservoir_right_side);
    lemma_sensor_field_joins(i4, "reservoir_right_side"@, t.reservoir_right_side);
    let i6 = i5 + reading_item("coolant_pump_motor"@, t.coolant_pump_motor);
    lemma_sensor_field_joins(i5, "coolant_pump_motor"@, t.coolant_pump_motor);
    assert(i1 =~= reading_item("onboard"@, t.onboard));
    assert(cooler_fields(t) == comma_joined(i6));
    lemma_comma_joined_empty(i6);
    reveal_strlit("observation.temperature,unit=C,source=");
    reveal_strlit("cooler");
    reveal_strlit(" ");
    reveal_strlit("observation.temperature,unit=C,source=cooler ");
    assert("observation.temperature,unit=C,source="@ + "cooler"@ + " "@
        =~= "observation.temperature,unit=C,source=cooler "@);
}

/// A controller temperature report makes one line whose fields are, in this
/// order, `onboard`, `electronics_bay_top`, `laser_chamber`, `coolant_flow`
/// and `coolant_return`, each written `name=reading` with that sensor's own
/// reading, those of failed sensors left out and the rest separated by
/// commas; with no reading at all there is no line.
pub proof fn lemma_controller_line_fields(t: ControllerTemperatures, ts: Option<u128>)
    ensures
        ({
            let items = reading_item("onboard"@, t.onboard) + reading_item(
                "electronics_bay_top"@,
                t.electronics_bay_top,
            ) + reading_item("laser_chamber"@, t.laser_chamber) + reading_item(
                "coolant_flow"@,
                t.coolant_flow,
            ) + reading_item("coolant_return"@, t.coolant_return);
            metric_text(
                Metric {
                    timestamp: ts,
                    value: MetricKind::PeripheralControllerEvent(
                        EventKind::Observation(ObservationEvent::TemperaturesA(t)),
                    ),
                },
            ) == if items.len() == 0 {
                None
            } else {
                Some(
                    "observation.temperature,unit=C,source=peripheral_controller "@
                        + comma_joined(items) + timestamp_text(ts),
                )
            }
        }),
{
    let e = Seq::<Seq<char>>::empty();
    assert(comma_joined(e) =~= Seq::<char>::empty());
    let i1 = e + reading_item("onboard"@, t.onboard);
    lemma_sensor_field_joins(e, "onboard"@, t.onboard);
    let i2 = i1 + reading_item("electronics_bay_top"@, t.electronics_bay_top);
    lemma_sensor_field_joins(i1, "electronics_bay_top"@, t.electronics_bay_top);
    let i3 = i2 + reading_item("laser_chamber"@, t.laser_chamber);
    lemma_sensor_field_joins(i2, "laser_chamber"@, t.laser_chamber);
    let i4 = i3 + reading_item("coolant_flow"@, t.coolant_flow);
    lemma_sensor_field_joins(i3, "coolant_flow"@, t.coolant_flow);
    let i5 = i4 + reading_item("coolant_return"@, t.coolant_return);
    lemma_sensor_field_joins(i4, "coolant_return"@, t.coolant_return);
    assert(i1 =~= reading_item("onboard"@, t.onboard));
    assert(controller_fields(t) == comma_joined(i5));
    lemma_comma_joined_empty(i5);
    reveal_strlit("observation.temperature,unit=C,source=");
    reveal_strlit("peripheral_controller");
    reveal_strlit(" ");
    reveal_strlit("observation.temperature,unit=C,source=peripheral_controller ");
    assert("observation.temperature,unit=C,source="@ + "peripheral_controller"@ + " "@
        =~= "observation.temperature,unit=C,source=peripheral_controller "@);
}

/// Every controller event that reports one state makes the line
/// `<measurement> value="<state>"` under the measurement of its own kind:
/// `observation.machine_power` for the machine power, `control.laser_enable`
/// for the laser enable, `safety.lockout` for the lockout, and so on.
pub proof fn lemma_state_lines(e: EventKind, ts: Option<u128>)
    ensures
        e matches EventKind::Observation(ObservationEvent::AirAssistDemand(v)) ==> metric_text(Metric { timestamp: ts, value: MetricKind::PeripheralControllerEvent(e) }) == Some(
            "observation.air_assist_demand"@ + " value=\""@ + v@ + "\""@ + timestamp_text(ts),
        ),
        e matches EventKind::Observation(ObservationEvent::ChassisIntrusion(v)) ==> metric_text(Metric { timestamp: ts, value: MetricKind::PeripheralControllerEvent(e) }) == Some(
            "observation.chassis_intrusion"@ + " value=\""@ + v@ + "\""@ + timestamp_text(ts),
        ),
        e matches EventKind::Observation(ObservationEvent::FumeExtractionMode(v)) ==> metric_text(Metric { timestamp: ts, value: MetricKind::PeripheralControllerEvent(e) }) == Some(
            "observation.fume_extraction_mode"@ + " value=\""@ + v@ + "\""@ + timestamp_text(ts),
        ),
        e matches EventKind::Observation(ObservationEvent::MachinePower(v)) ==> metric_text(Metric { timestamp: ts, value: MetricKind::PeripheralControllerEvent(e) }) == Some(
            "observation.machine_power"@ + " value=\""@ + v@ + "\""@ + timestamp_text(ts),
        ),
        e matches EventKind::Observation(ObservationEvent::MachineRun(v)) ==> metric_text(Metric { timestamp: ts, value: MetricKind::PeripheralControllerEvent(e) }) == Some(
            "observation.machine_run"@ + " value=\""@ + v@ + "\""@ + timestamp_text(ts),
        ),
        e matches EventKind::Observation(ObservationEvent::CoolantReservoirLevel(v)) ==> metric_text(Metric { timestamp: ts, value: MetricKind::PeripheralControllerEvent(e) }) == Some(
            "observation.coolant_reservoir_fluid_level"@ + " value=\""@ + v@ + "\""@ + timestamp_text(ts),
        ),
        e matches EventKind::Control(ControlEvent::AirAssistPump(v)) ==> metric_text(Metric { timestamp: ts, value: MetricKind::PeripheralControllerEvent(e) }) == Some(
            "control.air_assist_pump"@ + " value=\""@ + v@ + "\""@ + timestamp_text(ts),
        ),
        e matches EventKind::Control(ControlEvent::FumeExtractionFan(v)) ==> metric_text(Metric { timestamp: ts, value: MetricKind::PeripheralControllerEvent(e) }) == Some(
            "control.fume_extraction_fan"@ + " value=\""@ + v@ + "\""@ + timestamp_text(ts),
        ),
        e matches EventKind::Control(ControlEvent::LaserEnable(v)) ==> metric_text(Metric { timestamp: ts, value: MetricKind::PeripheralControllerEvent(e) }) == Some(
            "control.laser_enable"@ + " value=\""@ + v@ + "\""@ + timestamp_text(ts),
        ),
        e matches EventKind::Control(ControlEvent::MachineEnable(v)) ==> metric_text(Metric { timestamp: ts, value: MetricKind::PeripheralControllerEvent(e) }) == Some(
            "control.machine_enable"@ + " value=\""@ + v@ + "\""@ + timestamp_text(ts),
        ),
        e matches EventKind::Control(ControlEvent::CoolerCompressor(v)) ==> metric_text(Metric { timestamp: ts, value: MetricKind::PeripheralControllerEvent(e) }) == Some(
            "control.cooler_compressor"@ + " value=\""@ + v@ + "\""@ + timestamp_text(ts),
        ),
        e matches EventKind::Control(ControlEvent::CoolerRadiatorFan(v)) ==> metric_text(Metric { timestamp: ts, value: MetricKind::PeripheralControllerEvent(e) }) == Some(
            "control.cooler_radiator_fan"@ + " value=\""@ + v@ + "\""@ + timestamp_text(ts),
        ),
        e matches EventKind::Control(ControlEvent::CoolantPump(v)) ==> metric_text(Metric { timestamp: ts, value: MetricKind::PeripheralControllerEvent(e) }) == Some(
            "control.coolant_pump"@ + " value=\""@ + v@ + "\""@ + timestamp_text(ts),
        ),
        e matches EventKind::LockoutChanged(v) ==> metric_text(Metric { timestamp: ts, value: MetricKind::PeripheralControllerEvent(e) }) == Some(
            "safety.lockout"@ + " value=\""@ + v@ + "\""@ + timestamp_text(ts),
        ),
        e matches EventKind::CoolingEnableChanged(v) ==> metric_text(Metric { timestamp: ts, value: MetricKind::PeripheralControllerEvent(e) }) == Some(
            "cooling.enable"@ + " value=\""@ + v@ + "\""@ + timestamp_text(ts),
        ),
        e matches EventKind::CoolingDemandChanged(v) ==> metric_text(Metric { timestamp: ts, value: MetricKind::PeripheralControllerEvent(e) }) == Some(
            "cooling.demand"@ + " value=\""@ + v@ + "\""@ + timestamp_text(ts),
        ),
{
}

/// The status lamp makes one line with a field per light, each `true`
/// exactly when that light is on; a coolant flow reading makes a line in
/// litres per minute; a boot of either controller reports its revision and
/// boot reason.
pub proof fn lemma_lamp_flow_and_boot_lines(e: EventKind, ts: Option<u128>)
    ensures
        e matches EventKind::Control(ControlEvent::StatusLamp(l)) ==> metric_text(Metric { timestamp: ts, value: MetricKind::PeripheralControllerEvent(e) }) == Some(
            "control.status red=\""@ + (if l.red { "true"@ } else { "false"@ }) + "\",amber=\""@
                + (if l.amber { "true"@ } else { "false"@ }) + "\",green=\""@ + (if l.green {
                "true"@
            } else {
                "false"@
            }) + "\""@ + timestamp_text(ts),
        ),
        e matches EventKind::Observation(ObservationEvent::CoolantFlow(v)) ==> metric_text(Metric { timestamp: ts, value: MetricKind::PeripheralControllerEvent(e) }) == Some(
            "observation.coolant_flow,unit=L/min value="@ + v@ + timestamp_text(ts),
        ),
        e matches EventKind::Boot(b) ==> metric_text(Metric { timestamp: ts, value: MetricKind::PeripheralControllerEvent(e) }) == Some(
            "peripheral_controller_system_info git_revision=\""@ + b.git_revision@
                + "\",boot_reason=\""@ + b.last_boot_reason@ + "\""@ + timestamp_text(ts),
        ),
        e matches EventKind::CoolerBoot(b) ==> metric_text(Metric { timestamp: ts, value: MetricKind::PeripheralControllerEvent(e) }) == Some(
            "cooler_system_info git_revision=\""@ + b.git_revision@ + "\",boot_reason=\""@
                + b.last_boot_reason@ + "\""@ + timestamp_text(ts),
        ),
{
    reveal_strlit("observation.coolant_flow");
    reveal_strlit(",unit=");
    reveal_strlit("L/min");
    reveal_strlit(" value=");
    reveal_strlit("observation.coolant_flow,unit=L/min value=");
    assert("observation.coolant_flow"@ + ",unit="@ + "L/min"@ + " value="@
        =~= "observation.coolant_flow,unit=L/min value="@);
}

/// The module's own figures each go out under their own field: the network
/// link's age in seconds, the wall clock's epoch time and sync age, the
/// traffic counters (events received, receive failures, buffer submissions,
/// messages, buffer failures, network failures), and the firmware revision,
/// boot reason and uptime.
pub proof fn lemma_module_lines(k: MetricKind, ts: Option<u128>)
    ensures
        k matches MetricKind::TelemetryModuleNetworkState(v) ==> metric_text(
            Metric { timestamp: ts, value: k },
        ) == Some(
            "telemetry_module.network.connection_age,unit=s value="@ + decimal(
                v.connection_age_secs as nat,
            ) + timestamp_text(ts),
        ),
        k matches MetricKind::TelemetryModuleTime(v) ==> metric_text(
            Metric { timestamp: ts, value: k },
        ) == Some(
            "telemetry_module.time.wall,unit=ns unix_epoch="@ + decimal(
                v.unix_epoch_nanoseconds as nat,
            ) + ",sync_age="@ + decimal(v.sync_age_nanoseconds as nat) + timestamp_text(ts),
        ),
        k matches MetricKind::TelemetryModuleStatistics(v) ==> metric_text(
            Metric { timestamp: ts, value: k },
        ) == Some(
            "telemetry_module.statistics.receive events="@ + decimal(v.events_received as nat)
                + ",failures="@ + decimal(v.receive_failures as nat) + timestamp_text(ts)
                + "telemetry_module.statistics.transmit buffer_submissions="@ + decimal(
                v.metrics_added_to_transmit_buffer as nat,
            ) + ",messages="@ + decimal(v.messages_transmitted as nat) + ",buffer_failures="@
                + decimal(v.tramsit_buffer_failures as nat) + ",network_failures="@ + decimal(
                v.transmit_network_failures as nat,
            ) + timestamp_text(ts),
        ),
        k matches MetricKind::TelemetryModuleSystemInformation(v) ==> metric_text(
            Metric { timestamp: ts, value: k },
        ) == Some(
            "telemetry_module.system_info git_revision=\""@ + v.git_revision@
                + "\",boot_reason=\""@ + (match v.last_boot_reason {
                BootReason::Normal => "Normal"@,
                BootReason::WatchdogTimeout => "WatchdogTimeout"@,
                BootReason::WatchdogForced => "WatchdogForced"@,
            }) + "\""@ + timestamp_text(ts) + "telemetry_module.time.uptime,unit=ms value="@
                + decimal(v.uptime_milliseconds as nat) + timestamp_text(ts),
        ),
{
    reveal_strlit("telemetry_module.network.connection_age");
    reveal_strlit(",unit=");
    reveal_strlit("s");
    reveal_strlit("ms");
    reveal_strlit(" value=");
    reveal_strlit("telemetry_module.network.connection_age,unit=s value=");
    reveal_strlit("telemetry_module.time.uptime");
    reveal_strlit("telemetry_module.time.uptime,unit=ms value=");
    assert("telemetry_module.network.connection_age"@ + ",unit="@ + "s"@ + " value="@
        =~= "telemetry_module.network.connection_age,unit=s value="@);
    assert("telemetry_module.time.uptime"@ + ",unit="@ + "ms"@ + " value="@
        =~= "telemetry_module.time.uptime,unit=ms value="@);
}

/// The field of monitor `i` in a report of `values`, named by `name`.
pub open spec fn monitor_item(name: Seq<char>, values: Seq<String>, i: int) -> Seq<char> {
    name + "=\""@ + values[i]@ + "\""@
}

proof fn lemma_monitor_fields_joined(values: Seq<String>, n: nat)
    requires
        n <= values.len(),
    ensures
        monitor_fields(values, n) == comma_joined(
            Seq::new(n, |i: int| monitor_item(monitor_field_name(i), values, i)),
        ),
    decreases n,
{
    let items = Seq::new(n, |i: int| monitor_item(monitor_field_name(i), values, i));
    if n == 0 {
        assert(comma_joined(items) =~= Seq::<char>::empty());
    } else {
        lemma_monitor_fields_joined(values, (n - 1) as nat);
        let prev = Seq::new((n - 1) as nat, |i: int| monitor_item(monitor_field_name(i), values, i));
        assert(items.drop_last() =~= prev);
        if n == 1 {
            assert(monitor_fields(values, 1) =~= items[0]);
        } else {
            assert(monitor_fields(values, n) =~= comma_joined(prev) + ","@ + items.last());
        }
    }
}

/// A report of the monitors makes one line with a field per monitor, in the
/// controller's order (`mach_power_off`, `chassis_intrusion`,
/// `cooler_comm_fault`, `mach_elec_temp`, `cool_elec_temp`,
/// `coolant_reservoir_level`, `cool_flow_rate`, `temp_sens_a`, `temp_sens_b`,
/// `cool_flow_temp`, `coolant_reservoir_temp`), each carrying the quoted
/// state of that monitor; states beyond these eleven are not reported.
pub proof fn lemma_monitors_line(values: Vec<String>, ts: Option<u128>)
    ensures
        ({
            let names = seq![
                "mach_power_off"@,
                "chassis_intrusion"@,
                "cooler_comm_fault"@,
                "mach_elec_temp"@,
                "cool_elec_temp"@,
                "coolant_reservoir_level"@,
                "cool_flow_rate"@,
                "temp_sens_a"@,
                "temp_sens_b"@,
                "cool_flow_temp"@,
                "coolant_reservoir_temp"@,
            ];
            let n = if values@.len() < 11 { values@.len() } else { 11 };
            metric_text(
                Metric {
                    timestamp: ts,
                    value: MetricKind::PeripheralControllerEvent(EventKind::MonitorsChanged(values)),
                },
            ) == Some(
                "safety.monitors "@ + comma_joined(
                    Seq::new(n, |i: int| monitor_item(names[i], values@, i)),
                ) + timestamp_text(ts),
            )
        }),
{
    let names = seq![
        "mach_power_off"@,
        "chassis_intrusion"@,
        "cooler_comm_fault"@,
        "mach_elec_temp"@,
        "cool_elec_temp"@,
        "coolant_reservoir_level"@,
        "cool_flow_rate"@,
        "temp_sens_a"@,
        "temp_sens_b"@,
        "cool_flow_temp"@,
        "coolant_reservoir_temp"@,
    ];
    let n = monitor_count(values@);
    lemma_monitor_fields_joined(values@, n);
    assert forall|i: int| 0 <= i < 11 implies names[i] == monitor_field_name(i) by {
        if i == 0 {} else if i == 1 {} else if i == 2 {} else if i == 3 {} else if i == 4 {
        } else if i == 5 {} else if i == 6 {} else if i == 7 {} else if i == 8 {
        } else if i == 9 {} else {}
    }
    assert(Seq::new(n, |i: int| monitor_item(monitor_field_name(i), values@, i)) =~= Seq::new(
        n,
        |i: int| monitor_item(names[i], values@, i),
    ));
}

} // verus!
