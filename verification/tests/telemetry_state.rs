use uav_gcs::connection::MavConnection;
use uav_gcs::frames::InboundMessage;
use uav_gcs::heartbeat::{next_sequence, HeartbeatManager};
use uav_gcs::frames::{MavAutopilot, MavState, MavType, OutboundMessage};
use uav_gcs::messages::VehicleEvent;
use uav_gcs::telemetry::{ClimbRate, GeoPosition, TelemetryData, TelemetryHandler};
use uav_gcs::types::{ArmState, FlightMode, GpsFixType};

#[test]
fn fresh_state() {
    let h = TelemetryHandler::new();
    let d = h.data();
    assert_eq!(d.flight_mode, FlightMode::Manual);
    assert_eq!(d.arm_state, ArmState::Disarmed);
    assert_eq!(d.gps_fix, GpsFixType::NoGps);
    assert!(d.home_position.is_none());
    assert!(!d.heartbeat_ok);
    assert_eq!(d.messages_received, 0);
    assert!(d.rc_channels.is_empty());
    assert_eq!(TelemetryHandler::default().data().messages_received, 0);
}

#[test]
fn heartbeat_sets_mode_and_arming() {
    let mut h = TelemetryHandler::new();
    h.tick_heartbeat(5000);
    assert_eq!(h.data().last_heartbeat_ms, 5000);
    assert!(!h.process_message(&InboundMessage::Heartbeat { custom_mode: 11, base_mode: 0b1000_0001 }));
    let d = h.data();
    assert!(d.heartbeat_ok);
    assert_eq!(d.last_heartbeat_ms, 0);
    assert_eq!(d.flight_mode, FlightMode::Rtl);
    assert_eq!(d.arm_state, ArmState::Armed);
    assert_eq!(d.messages_received, 1);
    h.process_message(&InboundMessage::Heartbeat { custom_mode: 99, base_mode: 0x7f });
    assert_eq!(h.data().flight_mode, FlightMode::Unknown(99));
    assert_eq!(h.data().arm_state, ArmState::Disarmed);
}

#[test]
fn heartbeat_lost_after_three_seconds() {
    let mut h = TelemetryHandler::new();
    h.process_message(&InboundMessage::Heartbeat { custom_mode: 0, base_mode: 0 });
    h.tick_heartbeat(1000);
    h.tick_heartbeat(2000);
    assert_eq!(h.data().last_heartbeat_ms, 3000);
    assert!(h.data().heartbeat_ok);
    h.tick_heartbeat(1);
    assert!(!h.data().heartbeat_ok);
    assert_eq!(h.data().last_heartbeat_ms, 3001);
}

#[test]
fn position_and_home() {
    let mut h = TelemetryHandler::new();
    let due = h.process_message(&InboundMessage::GlobalPositionInt {
        lat: 210285000,
        lon: 1058542000,
        alt: 25000,
        relative_alt: 10000,
        vz: -150,
        hdg: 27099,
    });
    assert!(!due);
    let d = h.data();
    assert_eq!(d.position, GeoPosition { lat_e7: 210285000, lon_e7: 1058542000, alt_msl_mm: 25000, alt_agl_mm: 10000 });
    assert_eq!(d.heading, 270);
    assert_eq!(d.climb_rate, ClimbRate::VerticalSpeed(-150));
    assert!(!h.process_message(&InboundMessage::HomePosition { latitude: 1, longitude: 2, altitude: 3 }));
    assert_eq!(h.data().home_position, Some(GeoPosition { lat_e7: 1, lon_e7: 2, alt_msl_mm: 3, alt_agl_mm: 0 }));
    assert!(h.process_message(&InboundMessage::GlobalPositionInt { lat: 0, lon: 0, alt: 0, relative_alt: 0, vz: 0, hdg: 0 }));
}

#[test]
fn hud_gps_and_navigation() {
    let mut h = TelemetryHandler::new();
    h.process_message(&InboundMessage::VfrHud {
        airspeed: 18.5f32.to_bits(),
        groundspeed: 20.0f32.to_bits(),
        heading: -10,
        climb: 1.5f32.to_bits(),
    });
    let d = h.data();
    assert_eq!(f32::from_bits(d.airspeed), 18.5);
    assert_eq!(f32::from_bits(d.ground_speed), 20.0);
    assert_eq!(d.heading, 65526);
    assert_eq!(d.climb_rate, ClimbRate::Measured(1.5f32.to_bits()));
    h.process_message(&InboundMessage::GpsRawInt { fix_type: 3, satellites_visible: 12, eph: 85 });
    assert_eq!(h.data().gps_fix, GpsFixType::Fix3D);
    assert_eq!(h.data().gps_satellites, 12);
    assert_eq!(h.data().gps_hdop, 85);
    h.process_message(&InboundMessage::MissionCurrent { seq: 4 });
    h.process_message(&InboundMessage::NavControllerOutput { wp_dist: 321 });
    assert_eq!(h.data().current_wp, 4);
    assert_eq!(h.data().distance_to_wp, 321);
    h.process_message(&InboundMessage::Attitude { roll: 1, pitch: 2, yaw: 3, rollspeed: 4, pitchspeed: 5, yawspeed: 6 });
    let a = h.data().attitude;
    assert_eq!((a.roll, a.pitch, a.yaw, a.roll_speed, a.pitch_speed, a.yaw_speed), (1, 2, 3, 4, 5, 6));
    assert_eq!(h.data().messages_received, 5);
}

#[test]
fn battery_messages() {
    let mut h = TelemetryHandler::new();
    h.process_message(&InboundMessage::BatteryStatus { current_consumed: 1200, battery_remaining: 80 });
    assert_eq!(h.data().battery.mah_consumed, 1200);
    assert_eq!(h.data().battery.remaining_pct, 80);
    h.process_message(&InboundMessage::SysStatus { voltage_battery: 12600, current_battery: 1530, battery_remaining: 77 });
    let b = h.data().battery;
    assert_eq!((b.voltage_mv, b.current_ca, b.remaining_pct, b.mah_consumed), (12600, 1530, 77, 0));
    h.process_message(&InboundMessage::BatteryStatus { current_consumed: -1, battery_remaining: -1 });
    let b = h.data().battery;
    assert_eq!(b.remaining_pct, 77);
    assert_eq!(b.mah_consumed, u32::MAX);
}

#[test]
fn rc_and_status_text() {
    let mut h = TelemetryHandler::new();
    let channels = [1500, 1501, 1502, 1503, 1504, 1505, 1506, 1507];
    h.process_message(&InboundMessage::RcChannels { rssi: 200, channels });
    assert_eq!(h.data().rssi, 200);
    assert_eq!(h.data().rc_channels, channels.to_vec());
    let mut text = b"GPS 1: detected".to_vec();
    text.resize(50, 0);
    h.process_message(&InboundMessage::StatusText { severity: 6, text });
    assert_eq!(h.data().status_text.as_deref(), Some("GPS 1: detected"));
    h.process_message(&InboundMessage::StatusText { severity: 6, text: vec![0; 50] });
    assert_eq!(h.data().status_text.as_deref(), Some("GPS 1: detected"));
}

#[test]
fn status_text_setter_ignores_empty() {
    let mut d = TelemetryData::new();
    d.set_status_text(String::new());
    assert!(d.status_text.is_none());
    d.set_status_text("x".to_string());
    assert_eq!(d.status_text.as_deref(), Some("x"));
    let h = TelemetryHandler::with_data(d);
    assert_eq!(h.data().status_text.as_deref(), Some("x"));
}

#[test]
fn monitor_reports_each_silence_once() {
    let mut hb = HeartbeatManager::new(255, 190, 3000, 1000);
    let mut events = Vec::new();
    for tick in 1..=8u64 {
        if let Some(ev) = hb.monitor_tick() {
            events.push((tick, ev));
        }
    }
    assert_eq!(events.len(), 1);
    match &events[0] {
        (7, VehicleEvent::HeartbeatTimeout { last_seen_ms }) => assert_eq!(*last_seen_ms, 3500),
        other => panic!("unexpected {:?}", other),
    }
    assert_eq!(hb.last_heartbeat_ms(), 4000);
    hb.on_heartbeat_received();
    assert_eq!(hb.last_heartbeat_ms(), 0);
    assert!(hb.monitor_tick().is_none());
    let mut again = 0;
    for _ in 0..10 {
        if hb.monitor_tick().is_some() {
            again += 1;
        }
    }
    assert_eq!(again, 1);
}

#[test]
fn station_heartbeat_frames() {
    let hb = HeartbeatManager::new(255, 190, 3000, 1000);
    let (header, msg) = hb.heartbeat_frame(7);
    assert_eq!((header.system_id, header.component_id, header.sequence), (255, 190, 7));
    match msg {
        OutboundMessage::Heartbeat { custom_mode, mavtype, autopilot, base_mode, system_status, mavlink_version } => {
            assert_eq!((custom_mode, base_mode, mavlink_version), (0, 128, 3));
            assert_eq!((mavtype, autopilot, system_status), (MavType::Gcs, MavAutopilot::Invalid, MavState::Active));
            assert_eq!(mavlink::dialects::ardupilotmega::MavModeFlag::default().bits(), base_mode);
        }
        other => panic!("unexpected {:?}", other),
    }
    assert_eq!(next_sequence(0), 1);
    assert_eq!(next_sequence(254), 255);
    assert_eq!(next_sequence(255), 0);
}

#[test]
fn heartbeat_restores_link_after_silence() {
    let mut h = TelemetryHandler::new();
    h.tick_heartbeat(10_000);
    assert!(!h.data().heartbeat_ok);
    h.process_message(&InboundMessage::Heartbeat { custom_mode: 5, base_mode: 0 });
    assert!(h.data().heartbeat_ok);
    assert_eq!(h.data().last_heartbeat_ms, 0);
}

#[test]
fn heartbeat_events_agree_with_telemetry() {
    for (custom_mode, base_mode) in [(0u32, 0u8), (10, 128), (12, 255), (77, 127)] {
        let msg = InboundMessage::Heartbeat { custom_mode, base_mode };
        let mut h = TelemetryHandler::new();
        h.process_message(&msg);
        let events = MavConnection::process_message(&msg);
        match &events[..] {
            [VehicleEvent::ArmStateChanged { armed }, VehicleEvent::ModeChanged { mode }] => {
                assert_eq!(*armed, h.data().arm_state == ArmState::Armed);
                assert_eq!(FlightMode::from_custom_mode(*mode), h.data().flight_mode);
            }
            other => panic!("unexpected {:?}", other),
        }
    }
}

#[test]
fn only_heartbeats_end_the_silence() {
    let mut hb = HeartbeatManager::new(1, 2, 3000, 1000);
    hb.monitor_tick();
    hb.monitor_tick();
    hb.on_message(&InboundMessage::MissionCurrent { seq: 1 });
    assert_eq!(hb.last_heartbeat_ms(), 1000);
    hb.on_message(&InboundMessage::Heartbeat { custom_mode: 0, base_mode: 0 });
    assert_eq!(hb.last_heartbeat_ms(), 0);
}

#[test]
fn monitor_reports_first_period_past_timeout() {
    let mut hb = HeartbeatManager::new(255, 190, 1200, 1000);
    let mut reports = Vec::new();
    for _ in 0..6 {
        if let Some(VehicleEvent::HeartbeatTimeout { last_seen_ms }) = hb.monitor_tick() {
            reports.push(last_seen_ms);
        }
    }
    assert_eq!(reports, vec![1500]);
    assert_eq!(hb.last_heartbeat_ms(), 3000);
}
