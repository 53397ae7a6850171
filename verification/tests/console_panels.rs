use uav_gcs::console::{connect_click, connect_outcome, mode_button_selected, mode_buttons, plan_ui_command, ConnectClick, send_failure, status_log_severity, LinkAction, LogSeverity, OperatorConsole};
use uav_gcs::messages::{BackendEvent, FailsafeReason, GcsCommand, ProtocolError, UiCommand, VehicleEvent};
use uav_gcs::panels::{CompanionPanel, CompanionPower, DetectionOverlay, Level, MapView, SignalQuality, StatusBar, TelemetryPanel};
use uav_gcs::telemetry::GeoPosition;
use uav_gcs::types::{ConnectionType, FlightMode, GpsFixType};

fn last(console: &OperatorConsole) -> (String, LogSeverity, String) {
    let e = console.log().last().unwrap();
    (e.timestamp.clone(), e.severity, e.message.clone())
}

#[test]
fn console_starts_with_greeting() {
    let c = OperatorConsole::new("10:00:00".to_string());
    assert!(!c.is_connected());
    assert_eq!(c.log().len(), 1);
    assert_eq!(last(&c), ("10:00:00".to_string(), LogSeverity::Info, "UAV Ground Control Station initialized".to_string()));
}

#[test]
fn console_keeps_last_two_hundred_lines() {
    let mut c = OperatorConsole::new("t0".to_string());
    for i in 0..250 {
        c.add_log(LogSeverity::Info, format!("t{}", i + 1), format!("line {}", i));
        assert!(c.log().len() <= 200);
    }
    assert_eq!(c.log().len(), 200);
    assert_eq!(c.log()[0].message, "line 50");
    assert_eq!(c.log()[199].message, "line 249");
}

#[test]
fn console_follows_link_events() {
    let mut c = OperatorConsole::new("t".to_string());
    c.handle_backend_event(BackendEvent::Connected, "t1".to_string());
    assert!(c.is_connected());
    assert_eq!(last(&c).2, "Connected to flight controller");
    c.handle_backend_event(BackendEvent::TelemetryUpdated, "t2".to_string());
    assert_eq!(c.log().len(), 2);
    c.handle_backend_event(BackendEvent::Error("boom".to_string()), "t3".to_string());
    assert_eq!(last(&c), ("t3".to_string(), LogSeverity::Error, "boom".to_string()));
    c.handle_backend_event(BackendEvent::Disconnected("User disconnected".to_string()), "t4".to_string());
    assert!(!c.is_connected());
    assert_eq!(last(&c), ("t4".to_string(), LogSeverity::Info, "Disconnected: User disconnected".to_string()));
}

#[test]
fn console_logs_vehicle_events() {
    let mut c = OperatorConsole::new("t".to_string());
    let cases = vec![
        (VehicleEvent::StatusText { severity: 2, text: "crit".into() }, LogSeverity::Error, "[FC] crit"),
        (VehicleEvent::StatusText { severity: 4, text: "warn".into() }, LogSeverity::Warning, "[FC] warn"),
        (VehicleEvent::StatusText { severity: 6, text: "info".into() }, LogSeverity::Info, "[FC] info"),
        (VehicleEvent::HeartbeatTimeout { last_seen_ms: 3500 }, LogSeverity::Warning, "Heartbeat timeout! Last: 3500ms ago"),
        (VehicleEvent::Failsafe { reason: FailsafeReason::BatteryLow }, LogSeverity::Error, "FAILSAFE: BatteryLow"),
        (VehicleEvent::MissionAck { result: 0 }, LogSeverity::Info, "Mission ACK: result=0"),
    ];
    for (ev, sev, text) in cases {
        c.handle_backend_event(BackendEvent::Vehicle(ev), "x".to_string());
        assert_eq!(last(&c), ("x".to_string(), sev, text.to_string()));
    }
    let n = c.log().len();
    c.handle_backend_event(BackendEvent::Vehicle(VehicleEvent::ModeChanged { mode: 10 }), "y".to_string());
    c.handle_backend_event(BackendEvent::Vehicle(VehicleEvent::ArmStateChanged { armed: true }), "y".to_string());
    assert_eq!(c.log().len(), n);
    assert!(!c.is_connected());
}

#[test]
fn status_severity_classes() {
    assert_eq!(status_log_severity(0), LogSeverity::Error);
    assert_eq!(status_log_severity(3), LogSeverity::Error);
    assert_eq!(status_log_severity(5), LogSeverity::Warning);
    assert_eq!(status_log_severity(6), LogSeverity::Info);
    assert_eq!(status_log_severity(255), LogSeverity::Info);
}

#[test]
fn failsafe_names() {
    assert_eq!(FailsafeReason::RcLost.name(), format!("{:?}", FailsafeReason::RcLost));
    assert_eq!(FailsafeReason::GeofenceBreach.name(), "GeofenceBreach");
}

#[test]
fn link_task_plans() {
    let udp = ConnectionType::default();
    let fresh = plan_ui_command(false, UiCommand::Connect(udp.clone()));
    assert!(matches!(fresh[..], [LinkAction::Connect(_)]));
    let replace = plan_ui_command(true, UiCommand::Connect(udp));
    assert!(matches!(replace[..], [LinkAction::Disconnect, LinkAction::Connect(_)]));
    let close = plan_ui_command(true, UiCommand::Disconnect);
    match &close[..] {
        [LinkAction::Disconnect, LinkAction::Report(BackendEvent::Disconnected(r))] => assert_eq!(r, "User disconnected"),
        other => panic!("unexpected {:?}", other),
    }
    assert!(plan_ui_command(false, UiCommand::Disconnect).is_empty());
    assert!(matches!(plan_ui_command(true, UiCommand::SendCommand(GcsCommand::Reboot))[..], [LinkAction::Forward(GcsCommand::Reboot)]));
    match &plan_ui_command(false, UiCommand::SendCommand(GcsCommand::Reboot))[..] {
        [LinkAction::Report(BackendEvent::Error(m))] => assert_eq!(m, "Not connected"),
        other => panic!("unexpected {:?}", other),
    }
}

#[test]
fn connect_outcomes() {
    assert!(matches!(connect_outcome(Ok(())), BackendEvent::Connected));
    match connect_outcome(Err(ProtocolError::ConnectionFailed("No such file".into()))) {
        BackendEvent::Error(m) => assert_eq!(m, "Connection failed: Connection failed: No such file"),
        other => panic!("unexpected {:?}", other),
    }
    match send_failure("channel closed".into()) {
        BackendEvent::Error(m) => assert_eq!(m, "Failed to send command: channel closed"),
        other => panic!("unexpected {:?}", other),
    }
}

#[test]
fn panel_levels() {
    assert_eq!(StatusBar::link_level(false, true), Level::Critical);
    assert_eq!(StatusBar::link_level(true, false), Level::Warning);
    assert_eq!(StatusBar::link_level(true, true), Level::Good);
    assert_eq!(StatusBar::battery_level(51), Level::Good);
    assert_eq!(StatusBar::battery_level(50), Level::Warning);
    assert_eq!(StatusBar::battery_level(21), Level::Warning);
    assert_eq!(StatusBar::battery_level(20), Level::Critical);
    assert_eq!(TelemetryPanel::battery_level(-1), Level::Critical);
    assert_eq!(TelemetryPanel::rssi_level(255), Level::Good);
    assert_eq!(TelemetryPanel::rssi_level(128), Level::Good);
    assert_eq!(TelemetryPanel::rssi_level(127), Level::Warning);
    assert_eq!(TelemetryPanel::rssi_level(52), Level::Warning);
    assert_eq!(TelemetryPanel::rssi_level(51), Level::Critical);
    assert_eq!(TelemetryPanel::gps_fix_level(GpsFixType::RtkFixed), Level::Good);
    assert_eq!(TelemetryPanel::gps_fix_level(GpsFixType::RtkFloat), Level::Warning);
    assert_eq!(TelemetryPanel::gps_fix_level(GpsFixType::NoFix), Level::Critical);
    assert!(TelemetryPanel::shows_target_waypoint(1));
    assert!(!TelemetryPanel::shows_target_waypoint(0));
}

#[test]
fn rssi_levels_match_float_thresholds() {
    for rssi in 0..=255u8 {
        let pct = rssi as f32 / 255.0;
        let expected = if pct > 0.5 { Level::Good } else if pct > 0.2 { Level::Warning } else { Level::Critical };
        assert_eq!(TelemetryPanel::rssi_level(rssi), expected, "rssi {}", rssi);
    }
    for pct in -128..=127i8 {
        let frac = pct.max(0) as f32 / 100.0;
        let expected = if frac > 0.5 { Level::Good } else if frac > 0.2 { Level::Warning } else { Level::Critical };
        assert_eq!(TelemetryPanel::battery_level(pct), expected, "pct {}", pct);
    }
}

#[test]
fn companion_readings() {
    assert_eq!(CompanionPanel::signal_quality(0), SignalQuality::Excellent);
    assert_eq!(CompanionPanel::signal_quality(-69), SignalQuality::Excellent);
    assert_eq!(CompanionPanel::signal_quality(-70), SignalQuality::Good);
    assert_eq!(CompanionPanel::signal_quality(-85), SignalQuality::Good);
    assert_eq!(CompanionPanel::signal_quality(-86), SignalQuality::Fair);
    assert_eq!(CompanionPanel::signal_quality(-99), SignalQuality::Fair);
    assert_eq!(CompanionPanel::signal_quality(-100), SignalQuality::Poor);
    assert_eq!(CompanionPanel::signal_quality(-101), SignalQuality::Poor);
    assert_eq!(CompanionPanel::signal_quality(5), SignalQuality::Poor);
    assert_eq!(CompanionPanel::uptime(3725), (62, 5));
    assert_eq!(CompanionPanel::power(-1), CompanionPower::External);
    assert_eq!(CompanionPanel::power(19), CompanionPower::Battery(Level::Critical));
    assert_eq!(CompanionPanel::power(20), CompanionPower::Battery(Level::Warning));
    assert_eq!(CompanionPanel::power(50), CompanionPower::Battery(Level::Good));
}

#[test]
fn map_position_and_class_colors() {
    assert!(!MapView::has_position(&GeoPosition { lat_e7: 0, lon_e7: 0, alt_msl_mm: 5, alt_agl_mm: 5 }));
    assert!(MapView::has_position(&GeoPosition { lat_e7: 0, lon_e7: 1, alt_msl_mm: 0, alt_agl_mm: 0 }));
    assert_eq!(DetectionOverlay::class_color("person"), (255, 100, 100));
    assert_eq!(DetectionOverlay::class_color("PERSON"), (255, 100, 100));
    assert_eq!(DetectionOverlay::class_color("Car"), (100, 200, 255));
    assert_eq!(DetectionOverlay::class_color("truck"), (100, 255, 200));
    assert_eq!(DetectionOverlay::class_color("TRUC\u{212A}"), (100, 255, 200));
    assert_eq!(DetectionOverlay::class_color("bicycle"), (255, 200, 100));
    assert_eq!(DetectionOverlay::class_color("Building"), (200, 150, 255));
    assert_eq!(DetectionOverlay::class_color("animal"), (150, 255, 100));
    assert_eq!(DetectionOverlay::class_color("boat"), (255, 255, 100));
    assert_eq!(DetectionOverlay::color_of_lowercase("CAR"), (255, 255, 100));
}

#[test]
fn mode_button_table() {
    let buttons = mode_buttons();
    assert_eq!(
        buttons,
        vec![("MANUAL", 0), ("STAB", 2), ("FBWA", 5), ("FBWB", 6), ("AUTO", 10), ("RTL", 11), ("LOITER", 12), ("CRUISE", 7)]
    );
    for (label, mode) in &buttons {
        let flight_mode = FlightMode::from_custom_mode(*mode);
        // every button but STAB shows as selected in the mode it selects
        assert_eq!(mode_button_selected(&flight_mode, label), *label != "STAB", "{}", label);
    }
    assert!(!mode_button_selected(&FlightMode::Stabilize, "STAB"));
    assert!(mode_button_selected(&FlightMode::Stabilize, "STABILIZE"));
    assert!(!mode_button_selected(&FlightMode::Auto, "RTL"));
    assert!(!mode_button_selected(&FlightMode::Guided, "AUTO"));
}

#[test]
fn connect_button_clicks() {
    assert!(matches!(connect_click(true, "garbage"), ConnectClick::Disconnect));
    match connect_click(false, "udpin:0.0.0.0:14550") {
        ConnectClick::Connect(ConnectionType::Udp { address, port }) => {
            assert_eq!((address.as_str(), port), ("0.0.0.0", 14550));
        }
        other => panic!("unexpected {:?}", other),
    }
    match connect_click(false, "serial:/dev/ttyUSB0:57600") {
        ConnectClick::Connect(ConnectionType::Serial { port, baud_rate }) => {
            assert_eq!((port.as_str(), baud_rate), ("/dev/ttyUSB0", 57600));
        }
        other => panic!("unexpected {:?}", other),
    }
    match connect_click(false, "bogus") {
        ConnectClick::Invalid(m) => assert_eq!(m, "Invalid connection string: bogus"),
        other => panic!("unexpected {:?}", other),
    }
}
