use uav_gcs::config::{TelemetryConfig, UiConfig};
use uav_gcs::types::{ArmState, ConnectionType, FlightMode, GpsFixType};
use uav_gcs::video::VideoConfig;
use uav_gcs::video::VideoSource;

#[test]
fn flight_mode_codes_follow_arduplane_table() {
    let table: [(u32, FlightMode); 10] = [
        (0, FlightMode::Manual),
        (1, FlightMode::Circle),
        (2, FlightMode::Stabilize),
        (5, FlightMode::FlyByWireA),
        (6, FlightMode::FlyByWireB),
        (7, FlightMode::Cruise),
        (10, FlightMode::Auto),
        (11, FlightMode::Rtl),
        (12, FlightMode::Loiter),
        (15, FlightMode::Guided),
    ];
    for (code, mode) in table {
        assert_eq!(FlightMode::from_custom_mode(code), mode);
        assert_eq!(mode.to_custom_mode(), code);
    }
    assert_eq!(FlightMode::from_custom_mode(3), FlightMode::Unknown(3));
    assert_eq!(FlightMode::from_custom_mode(99), FlightMode::Unknown(99));
}

#[test]
fn custom_mode_round_trips_for_every_code() {
    for code in 0u32..40 {
        assert_eq!(FlightMode::from_custom_mode(code).to_custom_mode(), code);
    }
    assert_eq!(FlightMode::from_custom_mode(u32::MAX).to_custom_mode(), u32::MAX);
}

#[test]
fn unknown_with_named_code_does_not_round_trip() {
    let mode = FlightMode::Unknown(10);
    assert_eq!(FlightMode::from_custom_mode(mode.to_custom_mode()), FlightMode::Auto);
}

#[test]
fn flight_mode_names() {
    assert_eq!(FlightMode::Manual.name(), "MANUAL");
    assert_eq!(FlightMode::Stabilize.name(), "STABILIZE");
    assert_eq!(FlightMode::FlyByWireA.name(), "FBWA");
    assert_eq!(FlightMode::FlyByWireB.name(), "FBWB");
    assert_eq!(FlightMode::Auto.name(), "AUTO");
    assert_eq!(FlightMode::Rtl.name(), "RTL");
    assert_eq!(FlightMode::Loiter.name(), "LOITER");
    assert_eq!(FlightMode::Cruise.name(), "CRUISE");
    assert_eq!(FlightMode::Guided.name(), "GUIDED");
    assert_eq!(FlightMode::Circle.name(), "CIRCLE");
    assert_eq!(FlightMode::Unknown(42).name(), "UNKNOWN");
}

#[test]
fn gps_fix_type_from_code() {
    assert_eq!(GpsFixType::from(0), GpsFixType::NoGps);
    assert_eq!(GpsFixType::from(1), GpsFixType::NoFix);
    assert_eq!(GpsFixType::from(2), GpsFixType::Fix2D);
    assert_eq!(GpsFixType::from(3), GpsFixType::Fix3D);
    assert_eq!(GpsFixType::from(4), GpsFixType::DGps);
    assert_eq!(GpsFixType::from(5), GpsFixType::RtkFloat);
    assert_eq!(GpsFixType::from(6), GpsFixType::RtkFixed);
    assert_eq!(GpsFixType::from(7), GpsFixType::Unknown(7));
    assert_eq!(GpsFixType::from(255), GpsFixType::Unknown(255));
}

#[test]
fn defaults() {
    assert_eq!(FlightMode::default(), FlightMode::Manual);
    assert_eq!(GpsFixType::default(), GpsFixType::NoGps);
    assert_eq!(ArmState::default(), ArmState::Disarmed);
    match ConnectionType::default() {
        ConnectionType::Udp { address, port } => {
            assert_eq!(address, "127.0.0.1");
            assert_eq!(port, 14550);
        }
        other => panic!("unexpected default {:?}", other),
    }
    let t = TelemetryConfig::default();
    assert_eq!(t.stream_rate_hz, 10);
    assert_eq!(t.heartbeat_timeout_ms, 3000);
    assert_eq!(t.heartbeat_interval_ms, 1000);
    let u = UiConfig::default();
    assert_eq!((u.width, u.height, u.dark_mode), (1280, 800, true));
    assert_eq!(u.map_tile_url, "https://tile.openstreetmap.org/{z}/{x}/{y}.png");
    let v = VideoConfig::default();
    assert!(matches!(v.source, VideoSource::TestPattern));
    assert_eq!((v.width, v.height), (1280, 720));
}

#[test]
fn connection_type_clone_keeps_fields() {
    let c = ConnectionType::Serial { port: "/dev/ttyUSB0".to_string(), baud_rate: 57600 };
    match c.clone() {
        ConnectionType::Serial { port, baud_rate } => {
            assert_eq!(port, "/dev/ttyUSB0");
            assert_eq!(baud_rate, 57600);
        }
        other => panic!("unexpected clone {:?}", other),
    }
}
