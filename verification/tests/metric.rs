use hoshiguma_telemetry::firmware::metric::{
    BootEvent, BootReason, ControlEvent, ControllerTemperatures, CoolerTemperatures, EventKind,
    Metric, MetricKind, NetworkState, ObservationEvent, Statistics, StatusLamp, SystemInformation,
    TimeMetrics,
};
use hoshiguma_telemetry::firmware::metric_buffer::{
    MetricBuffer, SubmissionOutcome, SubmissionResult,
};

fn s(t: &str) -> String {
    t.to_string()
}

fn line(m: Metric) -> Option<String> {
    m.render()
}

#[test]
fn system_information_makes_two_lines() {
    let m = Metric::new(
        Some(1_700_000_000_000_000_000),
        MetricKind::TelemetryModuleSystemInformation(SystemInformation {
            git_revision: s("abc123"),
            last_boot_reason: BootReason::WatchdogTimeout,
            uptime_milliseconds: 42,
        }),
    );
    assert_eq!(
        line(m).unwrap(),
        "telemetry_module.system_info git_revision=\"abc123\",boot_reason=\"WatchdogTimeout\" 1700000000000000000\n\
         telemetry_module.time.uptime,unit=ms value=42 1700000000000000000\n"
    );
}

#[test]
fn untimed_metrics_end_with_newline_only() {
    let m = Metric::new(None, MetricKind::TelemetryModuleNetworkState(NetworkState { connection_age_secs: 17 }));
    assert_eq!(line(m).unwrap(), "telemetry_module.network.connection_age,unit=s value=17\n");
}

#[test]
fn time_and_statistics() {
    let m = Metric::new(
        Some(5),
        MetricKind::TelemetryModuleTime(TimeMetrics { unix_epoch_nanoseconds: 10, sync_age_nanoseconds: 20 }),
    );
    assert_eq!(line(m).unwrap(), "telemetry_module.time.wall,unit=ns unix_epoch=10,sync_age=20 5\n");
    let m = Metric::new(
        None,
        MetricKind::TelemetryModuleStatistics(Statistics {
            events_received: 1,
            receive_failures: 2,
            metrics_added_to_transmit_buffer: 3,
            messages_transmitted: 4,
            tramsit_buffer_failures: 5,
            transmit_network_failures: 6,
        }),
    );
    assert_eq!(
        line(m).unwrap(),
        "telemetry_module.statistics.receive events=1,failures=2\n\
         telemetry_module.statistics.transmit buffer_submissions=3,messages=4,buffer_failures=5,network_failures=6\n"
    );
}

#[test]
fn controller_events() {
    let ev = |k: EventKind| line(Metric::new(Some(9), MetricKind::PeripheralControllerEvent(k))).unwrap();
    assert_eq!(
        ev(EventKind::Boot(BootEvent { git_revision: s("r1"), last_boot_reason: s("Normal") })),
        "peripheral_controller_system_info git_revision=\"r1\",boot_reason=\"Normal\" 9\n"
    );
    assert_eq!(
        ev(EventKind::CoolerBoot(BootEvent { git_revision: s("r2"), last_boot_reason: s("WatchdogForced") })),
        "cooler_system_info git_revision=\"r2\",boot_reason=\"WatchdogForced\" 9\n"
    );
    assert_eq!(ev(EventKind::LockoutChanged(s("Denied"))), "safety.lockout value=\"Denied\" 9\n");
    assert_eq!(ev(EventKind::CoolingEnableChanged(s("Enable"))), "cooling.enable value=\"Enable\" 9\n");
    assert_eq!(ev(EventKind::CoolingDemandChanged(s("Idle"))), "cooling.demand value=\"Idle\" 9\n");
    assert_eq!(
        ev(EventKind::Observation(ObservationEvent::MachinePower(s("On")))),
        "observation.machine_power value=\"On\" 9\n"
    );
    assert_eq!(
        ev(EventKind::Observation(ObservationEvent::CoolantFlow(s("1.5")))),
        "observation.coolant_flow,unit=L/min value=1.5 9\n"
    );
    assert_eq!(
        ev(EventKind::Control(ControlEvent::StatusLamp(StatusLamp { red: true, amber: false, green: true }))),
        "control.status red=\"true\",amber=\"false\",green=\"true\" 9\n"
    );
    assert_eq!(
        ev(EventKind::Control(ControlEvent::CoolantPump(s("Run")))),
        "control.coolant_pump value=\"Run\" 9\n"
    );
}

#[test]
fn monitors_line_lists_every_monitor() {
    let values: Vec<String> = (0..11).map(|i| if i == 1 { s("Critical") } else { s("Normal") }).collect();
    let text = line(Metric::new(None, MetricKind::PeripheralControllerEvent(EventKind::MonitorsChanged(values)))).unwrap();
    assert_eq!(
        text,
        "safety.monitors mach_power_off=\"Normal\",chassis_intrusion=\"Critical\",cooler_comm_fault=\"Normal\",\
         mach_elec_temp=\"Normal\",cool_elec_temp=\"Normal\",coolant_reservoir_level=\"Normal\",\
         cool_flow_rate=\"Normal\",temp_sens_a=\"Normal\",temp_sens_b=\"Normal\",cool_flow_temp=\"Normal\",\
         coolant_reservoir_temp=\"Normal\"\n"
    );
}

#[test]
fn temperature_lines_skip_failed_sensors() {
    let t = ControllerTemperatures {
        onboard: None,
        electronics_bay_top: Some(s("25.5")),
        laser_chamber: None,
        coolant_flow: Some(s("18")),
        coolant_return: None,
    };
    assert_eq!(
        line(Metric::new(Some(3), MetricKind::PeripheralControllerEvent(EventKind::Observation(ObservationEvent::TemperaturesA(t))))).unwrap(),
        "observation.temperature,unit=C,source=peripheral_controller electronics_bay_top=25.5,coolant_flow=18 3\n"
    );
    let none = CoolerTemperatures {
        onboard: None,
        internal_ambient: None,
        reservoir_evaporator_coil: None,
        reservoir_left_side: None,
        reservoir_right_side: None,
        coolant_pump_motor: None,
    };
    assert!(line(Metric::new(Some(3), MetricKind::PeripheralControllerEvent(EventKind::Observation(ObservationEvent::TemperaturesB(none))))).is_none());
}

#[test]
fn buffer_appends_whole_lines_and_refuses_the_rest() {
    let mut b = MetricBuffer::default();
    assert!(b.is_empty());
    assert_eq!(b.submission(), None);
    let m = Metric::new(None, MetricKind::TelemetryModuleNetworkState(NetworkState { connection_age_secs: 1 }));
    assert_eq!(b.push(m), Ok(()));
    assert_eq!(b.body(), "telemetry_module.network.connection_age,unit=s value=1\n");
    assert_eq!(b.submission(), Some("telemetry_module.network.connection_age,unit=s value=1\n"));
    assert!(!b.send_required());

    // A temperature report with no readings adds nothing.
    let none = CoolerTemperatures {
        onboard: None,
        internal_ambient: None,
        reservoir_evaporator_coil: None,
        reservoir_left_side: None,
        reservoir_right_side: None,
        coolant_pump_motor: None,
    };
    let m = Metric::new(None, MetricKind::PeripheralControllerEvent(EventKind::Observation(ObservationEvent::TemperaturesB(none))));
    assert_eq!(b.push(m), Err(()));
    assert_eq!(b.body(), "telemetry_module.network.connection_age,unit=s value=1\n");

    // A line longer than the line buffer is refused.
    let long = "x".repeat(2100);
    let m = Metric::new(None, MetricKind::PeripheralControllerEvent(EventKind::LockoutChanged(long)));
    assert_eq!(b.push(m), Err(()));
}

#[test]
fn buffer_asks_for_submission_when_nearly_full() {
    let mut b = MetricBuffer::new();
    let value = "y".repeat(1900);
    let mut pushed = 0;
    while !b.send_required() {
        let m = Metric::new(None, MetricKind::PeripheralControllerEvent(EventKind::LockoutChanged(value.clone())));
        assert_eq!(b.push(m), Ok(()));
        assert!(b.body().ends_with('\n'));
        pushed += 1;
    }
    assert_eq!(pushed, 6);
    assert!(b.body().len() > 12288 - 2048);
    // Full enough that the next line no longer fits.
    let m = Metric::new(None, MetricKind::PeripheralControllerEvent(EventKind::LockoutChanged(value.clone())));
    assert_eq!(b.push(m), Err(()));

    assert_eq!(b.complete_submission(SubmissionOutcome::NotDelivered), SubmissionResult::NetworkFailure);
    assert!(!b.is_empty());
    assert_eq!(b.complete_submission(SubmissionOutcome::Status(500)), SubmissionResult::NetworkFailure);
    assert!(!b.is_empty());
    assert_eq!(b.complete_submission(SubmissionOutcome::Status(204)), SubmissionResult::Success);
    assert!(b.is_empty());
}

#[test]
fn bad_request_discards_the_buffer() {
    let mut b = MetricBuffer::new();
    let m = Metric::new(None, MetricKind::TelemetryModuleNetworkState(NetworkState { connection_age_secs: 1 }));
    b.push(m).unwrap();
    assert_eq!(b.complete_submission(SubmissionOutcome::Status(400)), SubmissionResult::NetworkFailure);
    assert!(b.is_empty());
}

#[test]
fn numbers_are_written_in_decimal_at_their_extremes() {
    let m = Metric::new(Some(u128::MAX), MetricKind::TelemetryModuleNetworkState(NetworkState { connection_age_secs: u64::MAX }));
    assert_eq!(
        line(m).unwrap(),
        "telemetry_module.network.connection_age,unit=s value=18446744073709551615 340282366920938463463374607431768211455\n"
    );
    let m = Metric::new(Some(0), MetricKind::TelemetryModuleNetworkState(NetworkState { connection_age_secs: 0 }));
    assert_eq!(line(m).unwrap(), "telemetry_module.network.connection_age,unit=s value=0 0\n");
}
