use uav_gcs::connection::{build_connection_string, parse_connection_string, split_colons};
use uav_gcs::text::{chars_equal, decimal_string, parse_unsigned_decimal};
use uav_gcs::types::ConnectionType;

#[test]
fn decimal_strings() {
    assert_eq!(decimal_string(0), "0");
    assert_eq!(decimal_string(7), "7");
    assert_eq!(decimal_string(14550), "14550");
    assert_eq!(decimal_string(u64::MAX), "18446744073709551615");
}

#[test]
fn unsigned_parsing_follows_std_rules() {
    assert_eq!(parse_unsigned_decimal("14550", 65535), Some(14550));
    assert_eq!(parse_unsigned_decimal("+12", 65535), Some(12));
    assert_eq!(parse_unsigned_decimal("0007", 65535), Some(7));
    assert_eq!(parse_unsigned_decimal("65535", 65535), Some(65535));
    assert_eq!(parse_unsigned_decimal("65536", 65535), None);
    assert_eq!(parse_unsigned_decimal("4294967295", u32::MAX), Some(u32::MAX));
    assert_eq!(parse_unsigned_decimal("4294967296", u32::MAX), None);
    assert_eq!(parse_unsigned_decimal("99999999999999999999x", u32::MAX), None);
    assert_eq!(parse_unsigned_decimal("", 65535), None);
    assert_eq!(parse_unsigned_decimal("+", 65535), None);
    assert_eq!(parse_unsigned_decimal("-1", 65535), None);
    assert_eq!(parse_unsigned_decimal("12a", 65535), None);
    assert_eq!(parse_unsigned_decimal(" 12", 65535), None);
    for s in ["0", "+1", "123", "65535", "65536", "-0", "+-1", "1_000"] {
        assert_eq!(parse_unsigned_decimal(s, 65535), s.parse::<u16>().ok().map(u32::from), "{}", s);
    }
}

#[test]
fn chars_equal_compares_text() {
    assert!(chars_equal("udpin", "udpin"));
    assert!(!chars_equal("udpin", "udp"));
    assert!(!chars_equal("tcp", "udp"));
    assert!(chars_equal("", ""));
}

#[test]
fn split_keeps_empty_fields() {
    assert_eq!(split_colons("a::b"), vec!["a", "", "b"]);
    assert_eq!(split_colons(""), vec![""]);
    assert_eq!(split_colons(":"), vec!["", ""]);
    assert_eq!(split_colons("udpin:127.0.0.1:14550"), vec!["udpin", "127.0.0.1", "14550"]);
    let text = "x:y:z:w";
    assert_eq!(split_colons(text), text.split(':').collect::<Vec<_>>());
}

fn parsed(s: &str) -> Option<String> {
    parse_connection_string(s).map(|c| format!("{:?}", c))
}

#[test]
fn parse_connection_strings() {
    assert_eq!(
        parsed("udpin:127.0.0.1:14550"),
        Some(format!("{:?}", ConnectionType::Udp { address: "127.0.0.1".into(), port: 14550 }))
    );
    assert_eq!(
        parsed("udp:0.0.0.0:14551"),
        Some(format!("{:?}", ConnectionType::Udp { address: "0.0.0.0".into(), port: 14551 }))
    );
    assert_eq!(
        parsed("tcpin:10.0.0.2:5760"),
        Some(format!("{:?}", ConnectionType::Tcp { address: "10.0.0.2".into(), port: 5760 }))
    );
    assert_eq!(
        parsed("tcp:host:5760:extra"),
        Some(format!("{:?}", ConnectionType::Tcp { address: "host".into(), port: 5760 }))
    );
    assert_eq!(
        parsed("serial:/dev/ttyUSB0:57600"),
        Some(format!("{:?}", ConnectionType::Serial { port: "/dev/ttyUSB0".into(), baud_rate: 57600 }))
    );
    assert_eq!(parsed("udpin:127.0.0.1"), None);
    assert_eq!(parsed("udpin:127.0.0.1:70000"), None);
    assert_eq!(parsed("udpin:127.0.0.1:port"), None);
    assert_eq!(parsed("ws:127.0.0.1:14550"), None);
    assert_eq!(parsed("UDP:127.0.0.1:14550"), None);
    assert_eq!(parsed(""), None);
}

#[test]
fn build_connection_strings() {
    let s = build_connection_string(&ConnectionType::Serial { port: "COM3".into(), baud_rate: 115200 });
    assert_eq!(s, "serial:COM3:115200");
    let u = build_connection_string(&ConnectionType::Udp { address: "127.0.0.1".into(), port: 14550 });
    assert_eq!(u, "udpin:127.0.0.1:14550");
    let t = build_connection_string(&ConnectionType::Tcp { address: "h".into(), port: 0 });
    assert_eq!(t, "tcpin:h:0");
}

#[test]
fn built_strings_parse_back() {
    let settings = vec![
        ConnectionType::Serial { port: "/dev/ttyACM0".into(), baud_rate: 921600 },
        ConnectionType::Udp { address: "192.168.1.10".into(), port: 65535 },
        ConnectionType::Tcp { address: "".into(), port: 1 },
    ];
    for c in settings {
        let s = build_connection_string(&c);
        assert_eq!(parsed(&s), Some(format!("{:?}", c)));
    }
}

#[test]
fn address_with_colon_does_not_round_trip() {
    let c = ConnectionType::Udp { address: "::1".into(), port: 14550 };
    let s = build_connection_string(&c);
    assert_eq!(s, "udpin:::1:14550");
    assert_eq!(parsed(&s), None);
}

#[test]
fn decimal_reads_back() {
    for n in [0u32, 9, 10, 99, 100, 65535, 4_000_000_000, u32::MAX] {
        let s = decimal_string(n as u64);
        assert_eq!(parse_unsigned_decimal(&s, u32::MAX), Some(n));
    }
}
