use hoshiguma_telemetry::firmware::display::{auto_summary_screen, MonitorSeverity};
use hoshiguma_telemetry::firmware::screens::{Screen, ScreenSelector};

#[test]
fn selector_starts_at_home_and_cycles() {
    let mut s = ScreenSelector::default();
    assert_eq!(ScreenSelector::num_screens(), 8);
    assert_eq!(s.current_screen(), Screen::AutoSummary);
    assert_eq!(s.current_screen().name(), "Home");
    assert_eq!(s.current_screen_number(), 1);
    let expected = [
        ("Summary", 2),
        ("Monitors", 3),
        ("Temperatures", 4),
        ("Inputs", 5),
        ("Outputs", 6),
        ("Network", 7),
        ("Device", 8),
        ("Home", 1),
    ];
    for (name, number) in expected {
        s.select_next();
        assert_eq!(s.current_screen().name(), name);
        assert_eq!(s.current_screen_number(), number);
    }
}

#[test]
fn home_screen_shows_monitors_only_when_something_is_wrong() {
    assert_eq!(auto_summary_screen(None), Screen::Summary);
    assert_eq!(auto_summary_screen(Some(MonitorSeverity::Normal)), Screen::Summary);
    assert_eq!(auto_summary_screen(Some(MonitorSeverity::Warn)), Screen::Monitors);
    assert_eq!(auto_summary_screen(Some(MonitorSeverity::Critical)), Screen::Monitors);
}
