use mavlink::dialects::ardupilotmega as apm;
use uav_gcs::connection::MavConnection;
use uav_gcs::frames::{param_id_field, text_of_field, trimmed_bytes, InboundMessage, MavCmd, MavFrame, MavParamType, OutboundMessage, F32_ONE};
use uav_gcs::messages::{GcsCommand, ProtocolError, VehicleEvent, Waypoint};
use uav_gcs::types::ConnectionType;

fn command_long(msg: &OutboundMessage) -> (MavCmd, [u32; 7]) {
    match msg {
        OutboundMessage::CommandLong {
            target_system,
            target_component,
            command,
            confirmation,
            param1,
            param2,
            param3,
            param4,
            param5,
            param6,
            param7,
        } => {
            assert_eq!((*target_system, *target_component, *confirmation), (1, 1, 0));
            (*command, [*param1, *param2, *param3, *param4, *param5, *param6, *param7])
        }
        other => panic!("not a COMMAND_LONG: {:?}", other),
    }
}

#[test]
fn arm_and_disarm_commands() {
    let arm = MavConnection::send_command(&GcsCommand::Arm(true));
    assert_eq!(arm.len(), 1);
    assert_eq!(command_long(&arm[0]), (MavCmd::ComponentArmDisarm, [F32_ONE, 0, 0, 0, 0, 0, 0]));
    assert_eq!(f32::from_bits(F32_ONE), 1.0);
    let disarm = MavConnection::send_command(&GcsCommand::Arm(false));
    assert_eq!(command_long(&disarm[0]), (MavCmd::ComponentArmDisarm, [0; 7]));
}

#[test]
fn simple_commands() {
    let rtl = MavConnection::send_command(&GcsCommand::ReturnToLaunch);
    assert_eq!(command_long(&rtl[0]), (MavCmd::NavReturnToLaunch, [0; 7]));
    let cam = MavConnection::send_command(&GcsCommand::CameraTrigger);
    assert_eq!(command_long(&cam[0]), (MavCmd::DoDigicamControl, [0, 0, 0, 0, F32_ONE, 0, 0]));
    let start = MavConnection::send_command(&GcsCommand::StartMission);
    assert_eq!(command_long(&start[0]), (MavCmd::MissionStart, [0; 7]));
    let reboot = MavConnection::send_command(&GcsCommand::Reboot);
    assert_eq!(command_long(&reboot[0]), (MavCmd::PreflightRebootShutdown, [F32_ONE, 0, 0, 0, 0, 0, 0]));
}

#[test]
fn mode_commands() {
    let modes = [
        (GcsCommand::SetMode(5), 5u32),
        (GcsCommand::PauseMission, 12),
        (GcsCommand::ResumeMission, 10),
    ];
    for (cmd, expected) in modes {
        let out = MavConnection::send_command(&cmd);
        assert_eq!(out.len(), 1);
        match &out[0] {
            OutboundMessage::SetMode { target_system, base_mode, custom_mode } => {
                assert_eq!((*target_system, *base_mode, *custom_mode), (1, 192, expected));
            }
            other => panic!("not SET_MODE: {:?}", other),
        }
    }
}

#[test]
fn rc_override_and_stream_request() {
    let channels = [1000, 1100, 1200, 1300, 1400, 1500, 1600, 1700];
    let out = MavConnection::send_command(&GcsCommand::RcOverride { channels });
    match &out[0] {
        OutboundMessage::RcChannelsOverride { target_system, target_component, channels: c } => {
            assert_eq!((*target_system, *target_component), (1, 1));
            assert_eq!(*c, channels);
        }
        other => panic!("unexpected {:?}", other),
    }
    let out = MavConnection::send_command(&GcsCommand::RequestDataStream { stream_id: 6, rate_hz: 4 });
    match &out[0] {
        OutboundMessage::RequestDataStream { req_stream_id, req_message_rate, start_stop, .. } => {
            assert_eq!((*req_stream_id, *req_message_rate, *start_stop), (6, 4, 1));
        }
        other => panic!("unexpected {:?}", other),
    }
}

#[test]
fn guided_goto_position_target() {
    let alt = 120.0f32.to_bits();
    let out = MavConnection::send_command(&GcsCommand::GuidedGoto { lat_e7: 210285000, lon_e7: 1058542000, alt });
    match &out[0] {
        OutboundMessage::SetPositionTargetGlobalInt {
            coordinate_frame,
            type_mask,
            time_boot_ms,
            lat_int,
            lon_int,
            alt: a,
            vx,
            vy,
            vz,
            afx,
            afy,
            afz,
            yaw,
            yaw_rate,
            ..
        } => {
            assert_eq!(*time_boot_ms, 0);
            assert_eq!([*vx, *vy, *vz, *afx, *afy, *afz, *yaw, *yaw_rate], [0u32; 8]);
            assert_eq!(*coordinate_frame, MavFrame::GlobalRelativeAltInt);
            assert_eq!(*type_mask, 0b0000_1111_1111_1000);
            assert_eq!((*lat_int, *lon_int, *a), (210285000, 1058542000, alt));
        }
        other => panic!("unexpected {:?}", other),
    }
}

fn waypoint(seq: u16) -> Waypoint {
    Waypoint {
        seq,
        frame: 0,
        command: 22,
        current: if seq == 0 { 1 } else { 0 },
        autocontinue: 1,
        param1: 1,
        param2: 2,
        param3: 3,
        param4: 4,
        lat_e7: 100 + seq as i32,
        lon_e7: 200 + seq as i32,
        alt: 50.0f32.to_bits(),
    }
}

#[test]
fn mission_upload_sends_count_then_items() {
    let wps: Vec<Waypoint> = (0..3).map(waypoint).collect();
    let out = MavConnection::send_command(&GcsCommand::UploadMission(wps.clone()));
    assert_eq!(out.len(), 4);
    match &out[0] {
        OutboundMessage::MissionCount { count, .. } => assert_eq!(*count, 3),
        other => panic!("unexpected {:?}", other),
    }
    for (i, msg) in out[1..].iter().enumerate() {
        match msg {
            OutboundMessage::MissionItemInt { seq, frame, command, current, autocontinue, param1, param4, x, y, z, .. } => {
                let w = wps[i];
                assert_eq!(*seq, w.seq);
                assert_eq!(*frame, MavFrame::GlobalRelativeAlt);
                assert_eq!(*command, MavCmd::NavWaypoint);
                assert_eq!((*current, *autocontinue), (w.current, w.autocontinue));
                assert_eq!((*param1, *param4), (1, 4));
                assert_eq!((*x, *y, *z), (w.lat_e7, w.lon_e7, w.alt));
            }
            other => panic!("unexpected {:?}", other),
        }
    }
    let empty = MavConnection::send_command(&GcsCommand::UploadMission(Vec::new()));
    assert_eq!(empty.len(), 1);
}

#[test]
fn mission_count_wraps_at_u16() {
    let wps: Vec<Waypoint> = (0..65537u32).map(|i| waypoint(i as u16)).collect();
    let out = MavConnection::send_command(&GcsCommand::UploadMission(wps));
    assert_eq!(out.len(), 65538);
    match &out[0] {
        OutboundMessage::MissionCount { count, .. } => assert_eq!(*count, 1),
        other => panic!("unexpected {:?}", other),
    }
}

#[test]
fn parameter_ids_are_padded_and_truncated() {
    assert_eq!(param_id_field("RTL_ALT"), b"RTL_ALT\0\0\0\0\0\0\0\0\0".to_vec());
    assert_eq!(param_id_field("ABCDEFGHIJKLMNOPQRS"), b"ABCDEFGHIJKLMNOP".to_vec());
    let set = MavConnection::send_command(&GcsCommand::SetParam { param_id: "ARSPD_FBW_MIN".into(), value: 9.5f32.to_bits() });
    match &set[0] {
        OutboundMessage::ParamSet { param_id, param_value, param_type, .. } => {
            assert_eq!(*param_type, MavParamType::Real32);
            assert_eq!(param_id.len(), 16);
            assert_eq!(&param_id[..13], b"ARSPD_FBW_MIN");
            assert_eq!(f32::from_bits(*param_value), 9.5);
        }
        other => panic!("unexpected {:?}", other),
    }
    let get = MavConnection::send_command(&GcsCommand::GetParam { param_id: "THR_MAX".into() });
    match &get[0] {
        OutboundMessage::ParamRequestRead { param_id, param_index, .. } => {
            assert_eq!(&param_id[..7], b"THR_MAX");
            assert_eq!(*param_index, -1);
        }
        other => panic!("unexpected {:?}", other),
    }
}

#[test]
fn text_fields_are_trimmed_and_decoded() {
    assert_eq!(trimmed_bytes(b"abc\0\0"), b"abc".to_vec());
    assert_eq!(trimmed_bytes(b"a\0b\0"), b"a\0b".to_vec());
    assert_eq!(trimmed_bytes(b"\0\0"), Vec::<u8>::new());
    assert_eq!(text_of_field(b"PreArm: Check\0\0\0"), "PreArm: Check");
    assert_eq!(text_of_field(&[0x66, 0xff, 0x00]), "f\u{FFFD}");
    assert_eq!(text_of_field(&[0xE2, 0x00]), "\u{FFFD}");
    assert_eq!(text_of_field(&[]), "");
}

#[test]
fn link_state_and_events() {
    let mut link = MavConnection::new(ConnectionType::Udp { address: "127.0.0.1".into(), port: 14550 });
    assert!(!link.is_connected());
    assert_eq!((link.system_id(), link.component_id()), (255, 190));
    assert_eq!(link.build_connection_string(), "udpin:127.0.0.1:14550");
    let header = link.header();
    assert_eq!((header.system_id, header.component_id, header.sequence), (255, 190, 0));
    match link.connect(Err("refused".to_string())) {
        Err(e) => assert_eq!(e.message(), "Connection failed: refused"),
        Ok(ev) => panic!("unexpected {:?}", ev),
    }
    assert!(!link.is_connected());
    match link.connect(Ok(())) {
        Ok(VehicleEvent::Connected { connection, system_id, component_id }) => {
            assert_eq!((system_id, component_id), (255, 190));
            assert_eq!(format!("{:?}", connection), format!("{:?}", ConnectionType::Udp { address: "127.0.0.1".into(), port: 14550 }));
        }
        other => panic!("unexpected {:?}", other),
    }
    assert!(link.is_connected());
    match link.disconnect() {
        VehicleEvent::Disconnected { reason } => assert_eq!(reason, "User disconnected"),
        other => panic!("unexpected {:?}", other),
    }
    assert!(!link.is_connected());
    let hb = link.heartbeat_manager();
    assert_eq!(hb.last_heartbeat_ms(), 0);
    assert_eq!(hb.interval_ms(), 1000);
}

#[test]
fn data_stream_requests() {
    let link = MavConnection::new(ConnectionType::default());
    let out = link.request_data_streams();
    let got: Vec<(u8, u16)> = out
        .iter()
        .map(|m| match m {
            OutboundMessage::RequestDataStream { target_system, target_component, req_stream_id, req_message_rate, start_stop } => {
                assert_eq!((*target_system, *target_component, *start_stop), (1, 1, 1));
                (*req_stream_id, *req_message_rate)
            }
            other => panic!("unexpected {:?}", other),
        })
        .collect();
    assert_eq!(got, vec![(0, 4), (1, 2), (2, 2), (3, 5), (6, 4), (10, 10), (11, 10), (12, 2)]);
}

#[test]
fn inbound_messages_raise_events() {
    let ev = MavConnection::process_message(&InboundMessage::Heartbeat { custom_mode: 10, base_mode: 129 });
    assert_eq!(ev.len(), 2);
    assert!(matches!(ev[0], VehicleEvent::ArmStateChanged { armed: true }));
    assert!(matches!(ev[1], VehicleEvent::ModeChanged { mode: 10 }));
    let ev = MavConnection::process_message(&InboundMessage::Heartbeat { custom_mode: 0, base_mode: 81 });
    assert!(matches!(ev[0], VehicleEvent::ArmStateChanged { armed: false }));
    let mut text = b"Mission: 1 WP".to_vec();
    text.resize(50, 0);
    let ev = MavConnection::process_message(&InboundMessage::StatusText { severity: 6, text });
    match &ev[..] {
        [VehicleEvent::StatusText { severity, text }] => {
            assert_eq!(*severity, 6);
            assert_eq!(text, "Mission: 1 WP");
        }
        other => panic!("unexpected {:?}", other),
    }
    let mut id = b"THR_MAX".to_vec();
    id.resize(16, 0);
    let ev = MavConnection::process_message(&InboundMessage::ParamValue {
        param_id: id,
        param_value: 75.0f32.to_bits(),
        param_type: 9,
        param_count: 900,
        param_index: 12,
    });
    match &ev[..] {
        [VehicleEvent::ParamValue { param_id, value, param_type, param_count, param_index }] => {
            assert_eq!(param_id, "THR_MAX");
            assert_eq!(f32::from_bits(*value), 75.0);
            assert_eq!((*param_type, *param_count, *param_index), (9, 900, 12));
        }
        other => panic!("unexpected {:?}", other),
    }
    let ev = MavConnection::process_message(&InboundMessage::MissionAck { mavtype: 0 });
    assert!(matches!(ev[..], [VehicleEvent::MissionAck { result: 0 }]));
    assert!(MavConnection::process_message(&InboundMessage::CommandAck { command: 400, result: 0 }).is_empty());
    assert!(MavConnection::process_message(&InboundMessage::Other).is_empty());
    assert!(MavConnection::process_message(&InboundMessage::MissionCurrent { seq: 3 }).is_empty());
}

#[test]
fn protocol_error_texts() {
    assert_eq!(ProtocolError::ConnectionFailed("x".into()).message(), "Connection failed: x");
    assert_eq!(ProtocolError::HeartbeatTimeout(3500).message(), "Heartbeat timeout after 3500ms");
    assert_eq!(ProtocolError::InvalidMessage("y".into()).message(), "Invalid message: y");
    assert_eq!(ProtocolError::SerialError("z".into()).message(), "Serial port error: z");
    assert_eq!(ProtocolError::CommandRejected("c".into()).message(), "Command rejected: c");
    assert_eq!(ProtocolError::MissionUploadFailed("m".into()).message(), "Mission upload failed: m");
    assert_eq!(ProtocolError::Timeout("t".into()).message(), "Timeout: t");
    match MavConnection::send_error("broken pipe".to_string()) {
        ProtocolError::ConnectionFailed(m) => assert_eq!(m, "Send failed: broken pipe"),
        other => panic!("unexpected {:?}", other),
    }
}

#[test]
fn mode_constants_match_mavlink_definitions() {
    let manual_armed = apm::MavModeFlag::MAV_MODE_FLAG_SAFETY_ARMED | apm::MavModeFlag::MAV_MODE_FLAG_MANUAL_INPUT_ENABLED;
    assert_eq!(manual_armed.bits(), uav_gcs::frames::MODE_MANUAL_ARMED);
    assert_eq!(apm::MavModeFlag::MAV_MODE_FLAG_SAFETY_ARMED.bits(), uav_gcs::frames::MODE_FLAG_SAFETY_ARMED);
}
