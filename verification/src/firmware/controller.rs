//! Events reported by the machine controller, as the display and the MQTT
//! bridge see them. Temperatures stand as the `Display` text of their
//! floating-point readings.
use super::metric::StatusLamp;
use vstd::prelude::*;

verus! {

#[derive(Clone, Copy, Debug, PartialEq, Eq, Structural)]
pub enum MachineOperationLockout {
    Permitted,
    PermittedUntilIdle,
    Denied,
}

#[derive(Clone, Copy, Debug, PartialEq, Eq, Structural)]
pub enum AirAssistDemand {
    Idle,
    Demand,
}

#[derive(Clone, Copy, Debug, PartialEq, Eq, Structural)]
pub enum ChassisIntrusion {
    Normal,
    Intruded,
}

#[derive(Clone, Copy, Debug, PartialEq, Eq, Structural)]
pub enum CoolantResevoirLevel {
    Full,
    Low,
    Empty,
}

#[derive(Clone, Copy, Debug, PartialEq, Eq, Structural)]
pub enum FumeExtractionMode {
    Automatic,
    OverrideRun,
}

#[derive(Clone, Copy, Debug, PartialEq, Eq, Structural)]
pub enum MachinePower {
    On,
    Off,
}

#[derive(Clone, Copy, Debug, PartialEq, Eq, Structural)]
pub enum MachineRun {
    Idle,
    Running,
}

#[derive(Clone, Copy, Debug, PartialEq, Eq, Structural)]
pub enum AirAssistPump {
    Idle,
    Run,
}

#[derive(Clone, Copy, Debug, PartialEq, Eq, Structural)]
pub enum FumeExtractionFan {
    Idle,
    Run,
}

#[derive(Clone, Copy, Debug, PartialEq, Eq, Structural)]
pub enum LaserEnable {
    Inhibit,
    Enable,
}

#[derive(Clone, Copy, Debug, PartialEq, Eq, Structural)]
pub enum MachineEnable {
    Inhibit,
    Enable,
}

/// The controller's temperature sensors: each reading is the `Display` text
/// of the temperature, or `None` where the sensor failed.
#[derive(Clone, Debug)]
pub struct Temperatures {
    pub onboard: Option<String>,
    pub ambient: Option<String>,
    pub coolant_flow: Option<String>,
    pub coolant_return: Option<String>,
    pub coolant_pump: Option<String>,
    pub laser_chamber: Option<String>,
    pub electronics_bay_top: Option<String>,
    pub coolant_resevoir_top: Option<String>,
    pub coolant_resevoir_bottom: Option<String>,
}

/// The controller started.
#[derive(Clone, Debug)]
pub struct BootInfo {
    pub git_revision: String,
}

#[derive(Clone, Debug)]
pub enum ObservationEvent {
    AirAssistDemand(AirAssistDemand),
    ChassisIntrusion(ChassisIntrusion),
    /// The reservoir level, or `None` where the level sensor failed.
    CoolantResevoirLevel(Option<CoolantResevoirLevel>),
    FumeExtractionMode(FumeExtractionMode),
    MachinePower(MachinePower),
    MachineRun(MachineRun),
    Temperatures(Temperatures),
}

#[derive(Clone, Debug)]
pub enum ProcessEvent {
    /// A monitor changed.
    Monitor,
    /// The active alarms changed; the `Debug` text of the alarm set.
    Alarms(String),
    Lockout(MachineOperationLockout),
}

#[derive(Clone, Debug)]
pub enum ControlEvent {
    AirAssistPump(AirAssistPump),
    FumeExtractionFan(FumeExtractionFan),
    LaserEnable(LaserEnable),
    MachineEnable(MachineEnable),
    StatusLamp(StatusLamp),
}

#[derive(Clone, Debug)]
pub enum EventKind {
    Boot(BootInfo),
    /// The monitors changed; their states travel as JSON.
    MonitorsChanged,
    LockoutChanged(MachineOperationLockout),
    Observation(ObservationEvent),
    Process(ProcessEvent),
    Control(ControlEvent),
}

/// An event, stamped with the controller's uptime.
#[derive(Clone, Debug)]
pub struct Event {
    pub timestamp_milliseconds: u64,
    pub kind: EventKind,
}

} // verus!
