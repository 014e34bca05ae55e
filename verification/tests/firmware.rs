use hoshiguma_telemetry::firmware::controller::{
    AirAssistPump, BootInfo, ControlEvent, CoolantResevoirLevel, Event, EventKind, LaserEnable,
    MachineEnable, MachineOperationLockout, MachinePower, ObservationEvent, ProcessEvent,
    Temperatures,
};
use hoshiguma_telemetry::firmware::display::{
    diagnostics_screen_rows, inputs_screen_rows, ipv4_string, monitor_lines, outputs_screen_rows,
    telemetry_module_rows, Colour, DiagnosticsInputs, DisplayDataState, DisplayInput, Ipv4Config,
    MonitorKind, MonitorSeverity, NetworkEvent, Severity,
};
use hoshiguma_telemetry::firmware::metric::{BootReason, StatusLamp};
use hoshiguma_telemetry::firmware::mqtt::{
    last_will, publish_first, publish_result, publish_step, session_start_publications,
    telemetry_publications, Payload, Publication, PublishNext, SendOutcome,
};
use hoshiguma_telemetry::firmware::poll::{poll_step, NextPoll, PollCount, PollOutcome};
use hoshiguma_telemetry::firmware::self_telemetry::{
    boot_data_points, periodic_data_points, SelfCounters, TelemetryValue,
};
use hoshiguma_telemetry::firmware::system::{
    boot_reason, boot_reason_label, string_registry_last_modification_age_ms, LinkState,
    TimestampGen,
};
use hoshiguma_telemetry::firmware::trace::{TaskInfo, TaskState, TaskTable};
use hoshiguma_telemetry::firmware::ui::{
    classify_press, status_step, StatusAction, StatusEvent, UiEvent,
};

fn text(p: &Publication) -> (&str, Option<&str>, bool) {
    match &p.payload {
        Payload::Text(t) => (p.topic, Some(t.as_str()), p.retain),
        _ => (p.topic, None, p.retain),
    }
}

#[test]
fn task_time_is_accounted_per_state() {
    let mut t = TaskInfo::new(100);
    assert_eq!(t.name(), "unknown");
    t.update(150, TaskState::Running);
    assert_eq!((t.total_idle, t.total_running, t.total_waiting), (50, 0, 0));
    t.wake(170);
    assert_eq!((t.total_idle, t.total_running, t.total_waiting), (50, 20, 0));
    assert_eq!(t.total_wakes, 1);
    assert_eq!(t.current_state, TaskState::Waiting);
    // A clock that reads earlier counts nothing.
    t.update(160, TaskState::Idle);
    assert_eq!(t.total_waiting, 0);
    t.name = Some("net init");
    assert_eq!(t.name(), "net init");
    t.reset_counters(200);
    assert_eq!((t.total_idle, t.total_running, t.total_waiting, t.total_wakes), (0, 0, 0, 0));
    assert_eq!(t.current_state_since, 200);
    t.total_wakes = u64::MAX;
    t.wake(300);
    assert_eq!(t.total_wakes, u64::MAX);
}

#[test]
fn task_table_tracks_spawned_tasks() {
    let mut table = TaskTable::new();
    assert_eq!(table.task_new(7, 100), Ok(()));
    assert_eq!(table.task_new(9, 110), Ok(()));
    assert_eq!(table.task_new(11, 120), Ok(()));
    table.set_name(9, "display");
    table.enter(9, 130, TaskState::Running);
    table.wake(7, 140);
    // An unknown task changes nothing.
    table.enter(42, 150, TaskState::Running);
    assert!(table.get(42).is_none());

    let sample = table.report(200);
    assert_eq!(sample.len(), 3);
    assert_eq!((sample[0].total_idle, sample[0].total_wakes), (40, 1));
    assert_eq!(sample[1].name(), "display");
    assert_eq!((sample[1].total_idle, sample[1].current_state), (20, TaskState::Running));
    assert_eq!(sample[2].total_idle, 0);
    let again = table.report(300);
    assert_eq!(again.iter().map(|t| t.total_idle + t.total_running + t.total_waiting).sum::<u64>(), 0);
    assert_eq!(again[1].current_state_since, 200);

    // Ending a task moves the last one into its place.
    assert_eq!(table.task_end(7), Ok(()));
    assert_eq!(table.task_end(7), Err(()));
    let order: Vec<&str> = table.report(400).iter().map(|t| t.name()).collect();
    assert_eq!(order, vec!["unknown", "display"]);
    assert_eq!(table.get(11).map(|t| t.current_state_since), Some(400));
}

#[test]
fn task_table_refuses_a_task_beyond_its_capacity() {
    let mut table = TaskTable::new();
    for id in 0..32 {
        assert_eq!(table.task_new(id, 0), Ok(()));
    }
    assert_eq!(table.task_new(99, 0), Err(()));
    // A task of a known id replaces the old one in place.
    table.enter(3, 10, TaskState::Running);
    assert_eq!(table.task_new(3, 20), Ok(()));
    assert_eq!(table.get(3).map(|t| (t.current_state, t.total_idle)), Some((TaskState::Idle, 0)));
    assert_eq!(table.report(30).len(), 32);
}

#[test]
fn button_presses_by_length() {
    assert_eq!(classify_press(1_000, 50_000), None);
    assert_eq!(classify_press(0, 75_000), None);
    assert_eq!(classify_press(0, 75_001), Some(UiEvent::ButtonPushed));
    assert_eq!(classify_press(0, 5_000_000), Some(UiEvent::ButtonPushed));
    assert_eq!(classify_press(0, 5_000_001), Some(UiEvent::ButtonPushedForALongTime));
    assert_eq!(status_step(StatusEvent::Tick), StatusAction::FeedWatchdogAndToggleLed);
    assert_eq!(status_step(StatusEvent::Ui(UiEvent::ButtonPushed)), StatusAction::Nothing);
    assert_eq!(status_step(StatusEvent::Ui(UiEvent::ButtonPushedForALongTime)), StatusAction::Reboot);
}

#[test]
fn boot_reasons_and_link_age() {
    assert_eq!(boot_reason(true, true), BootReason::WatchdogForced);
    assert_eq!(boot_reason(false, true), BootReason::WatchdogTimeout);
    assert_eq!(boot_reason(false, false), BootReason::Normal);
    assert_eq!(boot_reason_label(BootReason::WatchdogForced), "Forced Reset");
    assert_eq!(BootReason::WatchdogTimeout.name(), "WatchdogTimeout");

    let mut link = LinkState::new();
    assert_eq!(link.age(500), 500);
    assert!(!link.is_ready());
    link.connected(200);
    assert_eq!(link.age(500), 300);
    assert!(link.is_ready());
    link.disconnected(450);
    assert_eq!(link.age(500), 50);
    assert!(!link.is_ready());

    assert_eq!(string_registry_last_modification_age_ms(1_000, 400), 600);
    assert_eq!(string_registry_last_modification_age_ms(100, 400), 0);

    let mut g = TimestampGen::new();
    g.init();
    assert_eq!(g.timestamp_sec(), 0);
    assert_eq!(g.timestamp_subsec_micros(), 0);
}

#[test]
fn mqtt_publications_for_events() {
    let e = Event {
        timestamp_milliseconds: 1234,
        kind: EventKind::LockoutChanged(MachineOperationLockout::PermittedUntilIdle),
    };
    let p = telemetry_publications(&e);
    assert_eq!(p.len(), 2);
    assert_eq!(text(&p[0]), ("hoshiguma/telemetry/controller/uptime_millis", Some("1234"), true));
    assert_eq!(text(&p[1]), ("hoshiguma/telemetry/lockout", Some("permitted_until_idle"), true));

    let e = Event {
        timestamp_milliseconds: 0,
        kind: EventKind::Observation(ObservationEvent::CoolantResevoirLevel(None)),
    };
    let p = telemetry_publications(&e);
    assert_eq!(text(&p[1]), ("hoshiguma/telemetry/coolant_resevoir_level", Some("unknown"), true));

    let t = Temperatures {
        onboard: Some("21.5".to_string()),
        ambient: None,
        coolant_flow: Some("18".to_string()),
        coolant_return: None,
        coolant_pump: None,
        laser_chamber: None,
        electronics_bay_top: None,
        coolant_resevoir_top: None,
        coolant_resevoir_bottom: Some("9.25".to_string()),
    };
    let p = telemetry_publications(&Event { timestamp_milliseconds: 5, kind: EventKind::Observation(ObservationEvent::Temperatures(t)) });
    assert_eq!(p.len(), 10);
    assert_eq!(text(&p[1]), ("hoshiguma/telemetry/temperature/onboard", Some("21.5"), true));
    assert_eq!(text(&p[2]), ("hoshiguma/telemetry/temperature/ambient", Some("null"), true));
    assert_eq!(text(&p[9]), ("hoshiguma/telemetry/temperature/coolant_resevoir_bottom", Some("9.25"), true));

    let lamp = StatusLamp { red: false, amber: true, green: false };
    let p = telemetry_publications(&Event { timestamp_milliseconds: 5, kind: EventKind::Control(ControlEvent::StatusLamp(lamp)) });
    assert_eq!(p.len(), 4);
    assert_eq!(text(&p[1]), ("hoshiguma/telemetry/status_lamp/red", Some("false"), true));
    assert_eq!(text(&p[2]), ("hoshiguma/telemetry/status_lamp/amber", Some("true"), true));
    assert_eq!(text(&p[3]), ("hoshiguma/telemetry/status_lamp/green", Some("false"), true));

    let p = telemetry_publications(&Event { timestamp_milliseconds: 5, kind: EventKind::Control(ControlEvent::AirAssistPump(AirAssistPump::Run)) });
    assert_eq!(text(&p[1]), ("hoshiguma/telemetry/air_assist_pump", Some("running"), true));
    let p = telemetry_publications(&Event { timestamp_milliseconds: 5, kind: EventKind::Control(ControlEvent::LaserEnable(LaserEnable::Inhibit)) });
    assert_eq!(text(&p[1]), ("hoshiguma/telemetry/laser_enable", Some("inhibited"), true));

    let p = telemetry_publications(&Event { timestamp_milliseconds: 5, kind: EventKind::MonitorsChanged });
    assert_eq!(p[1].topic, "hoshiguma/telemetry/monitors");
    assert!(matches!(p[1].payload, Payload::MonitorsJson));
    assert!(p[1].retain);

    let p = telemetry_publications(&Event { timestamp_milliseconds: 5, kind: EventKind::Boot(BootInfo { git_revision: "x".to_string() }) });
    assert_eq!(p[1].topic, "hoshiguma/telemetry/events");
    assert!(matches!(p[1].payload, Payload::EventJson));
    assert!(!p[1].retain);
}

#[test]
fn mqtt_session_and_publish_results() {
    let p = session_start_publications("v1.2");
    assert_eq!(text(&p[0]), ("hoshiguma/telemetry-module/online", Some("true"), true));
    assert_eq!(text(&p[1]), ("hoshiguma/telemetry-module/version", Some("v1.2"), true));
    assert_eq!(text(&last_will()), ("hoshiguma/telemetry-module/online", Some("false"), true));
    assert_eq!(publish_result(SendOutcome::Sent), Ok(()));
    assert_eq!(publish_result(SendOutcome::NoMatchingSubscribers), Ok(()));
    assert_eq!(publish_result(SendOutcome::Failed), Err(()));
}

#[test]
fn display_state_follows_events() {
    let mut s = DisplayDataState::new();
    s.apply(DisplayInput::Network(NetworkEvent::MqttBrokerConnected));
    assert!(s.mqtt_broker_connected);
    s.apply(DisplayInput::Telemetry(Event {
        timestamp_milliseconds: 77,
        kind: EventKind::Observation(ObservationEvent::MachinePower(MachinePower::Off)),
    }));
    assert_eq!(s.controller_uptime, Some(77));
    assert_eq!(s.machine_power, Some(MachinePower::Off));
    s.apply(DisplayInput::Telemetry(Event {
        timestamp_milliseconds: 80,
        kind: EventKind::Process(ProcessEvent::Lockout(MachineOperationLockout::Denied)),
    }));
    assert_eq!(s.lockout, Some(MachineOperationLockout::Denied));
    s.apply(DisplayInput::Lagged(3));
    assert_eq!(s.controller_uptime, Some(80));
    s.apply(DisplayInput::Network(NetworkEvent::MqttBrokerDisconnected));
    assert!(!s.mqtt_broker_connected);
    assert_eq!(s.machine_power, Some(MachinePower::Off));

    let rows = inputs_screen_rows(&s);
    assert_eq!(rows[0].label, "Mach Power");
    assert_eq!(rows[0].value.as_deref(), Some("Off"));
    assert_eq!(rows[0].severity, Some(Severity::Critical));
    assert_eq!(rows[5].label, "Cool Level");
    assert_eq!(rows[5].value, None);

    s.apply(DisplayInput::Telemetry(Event {
        timestamp_milliseconds: 90,
        kind: EventKind::Observation(ObservationEvent::CoolantResevoirLevel(Some(CoolantResevoirLevel::Low))),
    }));
    let rows = inputs_screen_rows(&s);
    assert_eq!(rows[5].value.as_deref(), Some("Low"));
    assert_eq!(rows[5].severity, Some(Severity::Warning));

    s.apply(DisplayInput::Telemetry(Event {
        timestamp_milliseconds: 95,
        kind: EventKind::Control(ControlEvent::StatusLamp(StatusLamp { red: true, amber: false, green: true })),
    }));
    s.apply(DisplayInput::Telemetry(Event {
        timestamp_milliseconds: 96,
        kind: EventKind::Control(ControlEvent::MachineEnable(MachineEnable::Enable)),
    }));
    let rows = outputs_screen_rows(&s);
    assert_eq!(rows[0].value.as_deref(), Some("R   G"));
    assert_eq!(rows[1].value.as_deref(), Some("Enabled"));
    assert_eq!(rows[2].value, None);
}

#[test]
fn diagnostics_rows() {
    let d = DiagnosticsInputs {
        git_revision: "abc".to_string(),
        uptime_secs: 61,
        boot_reason: BootReason::Normal,
        ipv4_config: Some(Ipv4Config {
            address: [192, 168, 8, 20],
            prefix_len: 24,
            gateway: Some([192, 168, 8, 1]),
            dns_servers: vec![[1, 1, 1, 1]],
        }),
        link_age_secs: 5,
        wall_time_secs: None,
        time_sync_age_secs: 12,
        events_received: 7,
        receive_failures: 0,
        transmit_buffer_insertions: 3,
        messages_transmitted: 2,
        transmit_buffer_failures: 1,
        transmit_network_failures: 4,
    };
    let rows = diagnostics_screen_rows(&d);
    let shown: Vec<(&str, Option<String>)> = rows.iter().map(|r| (r.label, r.value.clone())).collect();
    let some = |t: &str| Some(t.to_string());
    assert_eq!(
        shown,
        vec![
            ("Git Revision", some("abc")),
            ("Uptime", some("61s")),
            ("Boot Reason", some("Normal")),
            ("IP", some("192.168.8.20")),
            ("Gateway", some("192.168.8.1")),
            ("DNS 1", some("1.1.1.1")),
            ("Conn. Age", some("5s")),
            ("Time", None),
            ("Time Age", some("12s")),
            ("#Events Rx", some("7")),
            ("#Rx Fail", some("0")),
            ("#Tx Buf Ins", some("3")),
            ("#Msgs Tx", some("2")),
            ("#Tx Fail Buf", some("1")),
            ("#Tx Fail Net", some("4")),
        ]
    );
    assert_eq!(ipv4_string(&[10, 0, 0, 255]), "10.0.0.255");
    let rows = telemetry_module_rows("rev", 9, BootReason::WatchdogForced);
    assert_eq!(rows[1].value.as_deref(), Some("9s"));
    assert_eq!(rows[2].value.as_deref(), Some("Forced Reset"));
}

#[test]
fn monitor_lines_fit_the_screen() {
    let mut m = vec![
        (MonitorKind::ChassisIntrusion, MonitorSeverity::Critical),
        (MonitorKind::CoolantResevoirLevel, MonitorSeverity::Warn),
        (MonitorKind::LogicPowerSupplyNotPresent, MonitorSeverity::Normal),
    ];
    let lines = monitor_lines(&m);
    assert_eq!(lines, vec![
        ("Chassis Intrusion", Colour::Red),
        ("Coolant Res. Level", Colour::Yellow),
        ("Logic Power Inop.", Colour::Green),
    ]);
    for _ in 0..10 {
        m.push((MonitorKind::TemperatureSensorFault, MonitorSeverity::Normal));
    }
    assert_eq!(monitor_lines(&m).len(), 7);
}

#[test]
fn self_telemetry_points() {
    let b = boot_data_points("rev9", "normal");
    assert_eq!(b[0].measurement, "telemetry_module_git_revision");
    assert!(matches!(&b[1].value, TelemetryValue::StaticString(s) if s == "normal"));
    let c = SelfCounters {
        rpc_is_ready: 1,
        rpc_get_time: 2,
        rpc_strings_metadata: 3,
        rpc_clear_strings: 4,
        rpc_push_string: 5,
        rpc_data_point: 6,
        rpc_data_point_fail_to_line: 7,
        rpc_data_point_fail_render: 8,
        data_points_accepted: 9,
        data_points_discarded: 10,
        telegraf_submit_success: 11,
        telegraf_submit_fail: 12,
        string_registry_size: 13,
    };
    let p = periodic_data_points(1000, 2000, &c, 3000);
    assert_eq!(p.len(), 16);
    assert_eq!((p[0].measurement, p[0].field), ("telemetry_module_uptime", "value"));
    assert!(matches!(p[0].value, TelemetryValue::U64(1000)));
    assert!(matches!(p[1].value, TelemetryValue::U64(2000)));
    assert_eq!(p[8].measurement, "telemetry_module_rpc,request=data_point,result=fail,reason=to_line");
    assert!(matches!(p[8].value, TelemetryValue::Usize(7)));
    assert_eq!((p[15].measurement, p[15].field), ("telemetry_module_string_registry", "last_modify_age"));
    assert!(matches!(p[15].value, TelemetryValue::U64(3000)));
}

#[test]
fn polling_decisions() {
    assert_eq!(poll_step(PollOutcome::Event), (PollCount::Received, NextPoll::Immediately));
    assert_eq!(poll_step(PollOutcome::NoEvent), (PollCount::Neither, NextPoll::AfterPeriod));
    assert_eq!(poll_step(PollOutcome::UnexpectedResponse), (PollCount::Failed, NextPoll::AfterPeriod));
    assert_eq!(poll_step(PollOutcome::RpcError), (PollCount::Failed, NextPoll::AfterPeriod));
}

#[test]
fn publications_go_out_in_order_until_the_first_failure() {
    assert_eq!(publish_first(0), PublishNext::Done(Ok(())));
    assert_eq!(publish_first(3), PublishNext::Send(0));
    assert_eq!(publish_step(0, 3, SendOutcome::Sent), PublishNext::Send(1));
    assert_eq!(publish_step(1, 3, SendOutcome::NoMatchingSubscribers), PublishNext::Send(2));
    assert_eq!(publish_step(2, 3, SendOutcome::Sent), PublishNext::Done(Ok(())));
    assert_eq!(publish_step(1, 3, SendOutcome::Failed), PublishNext::Done(Err(())));

    // Driving a list: the third of five fails, so the last two never go out.
    let outcomes = [SendOutcome::Sent, SendOutcome::Sent, SendOutcome::Failed, SendOutcome::Sent, SendOutcome::Sent];
    let mut sent = Vec::new();
    let mut next = publish_first(outcomes.len());
    let result = loop {
        match next {
            PublishNext::Send(i) => {
                sent.push(i);
                next = publish_step(i, outcomes.len(), outcomes[i]);
            }
            PublishNext::Done(r) => break r,
        }
    };
    assert_eq!(result, Err(()));
    assert_eq!(sent, vec![0, 1, 2]);
}
