use vstd::prelude::*;
use vstd::string::*;
use vstd::utf8::encode_utf8;

use crate::frames::{
    field_text, is_armed, mode_flags_armed, padded_field, param_id_field, text_of_field, MavCmd,
    MavFrame, MavHeader, MavParamType, InboundMessage, OutboundMessage, OutboundView, F32_ONE, MODE_MANUAL_ARMED,
};
use crate::heartbeat::{HeartbeatManager, HeartbeatState};
use crate::messages::{GcsCommand, ProtocolError, VehicleEvent, Waypoint};
use crate::text::{
    chars_equal, decimal, decimal_string, is_digit, lemma_decimal_digits, lemma_parse_decimal,
    parse_unsigned, parse_unsigned_decimal,
};
use crate::types::{ConnectionType, ConnectionTypeView};

verus! {

/// The index of the first `:` in `s` at or after `start`, or the length of
/// `s` when there is none.
pub open spec fn next_colon(s: Seq<char>, start: int) -> int
    decreases s.len() - start,
{
    if start >= s.len() {
        s.len() as int
    } else if s[start] == ':' {
        start
    } else {
        next_colon(s, start + 1)
    }
}

/// The next `:` lies between `start` and the end, and none comes before it.
pub proof fn lemma_next_colon_bounds(s: Seq<char>, start: int)
    requires
        0 <= start <= s.len(),
    ensures
        start <= next_colon(s, start) <= s.len(),
        next_colon(s, start) < s.len() ==> s[next_colon(s, start)] == ':',
        forall|k: int| start <= k < next_colon(s, start) ==> s[k] != ':',
    decreases s.len() - start,
{
    if start < s.len() && s[start] != ':' {
        lemma_next_colon_bounds(s, start + 1);
    }
}

/// With no `:` in `s[start..j]`, the next `:` from `start` is the next one from `j`.
proof fn lemma_next_colon_skip(s: Seq<char>, start: int, j: int)
    requires
        0 <= start <= j <= s.len(),
        forall|k: int| start <= k < j ==> s[k] != ':',
    ensures
        next_colon(s, start) == next_colon(s, j),
    decreases j - start,
{
    if start < j {
        lemma_next_colon_skip(s, start + 1, j);
    }
}

/// The pieces of `s[start..]` between `:` separators, empty pieces included,
/// as `str::split(':')` yields them.
pub open spec fn split_from(s: Seq<char>, start: int) -> Seq<Seq<char>>
    decreases s.len() - start,
{
    if start < 0 || start > s.len() {
        Seq::empty()
    } else {
        let j = next_colon(s, start);
        proof {
            lemma_next_colon_bounds(s, start);
        }
        if j >= s.len() {
            seq![s.subrange(start, s.len() as int)]
        } else {
            seq![s.subrange(start, j)] + split_from(s, j + 1)
        }
    }
}

/// The pieces of `s` between `:` separators.
pub open spec fn colon_fields(s: Seq<char>) -> Seq<Seq<char>> {
    split_from(s, 0)
}

/// The setting that a connection string such as `udpin:127.0.0.1:14550`
/// describes: at least three `:`-separated fields, the first naming the
/// transport (`serial`, `udpin` or `udp`, `tcpin` or `tcp`), the second the
/// port or address and the third the baud rate or port number.
pub open spec fn parse_connection(input: Seq<char>) -> Option<ConnectionTypeView> {
    let parts = colon_fields(input);
    if parts.len() < 3 {
        None
    } else if parts[0] == "serial"@ {
        match parse_unsigned(parts[2], u32::MAX as nat) {
            Some(b) => Some(ConnectionTypeView::Serial { port: parts[1], baud_rate: b as u32 }),
            None => None,
        }
    } else if parts[0] == "udpin"@ || parts[0] == "udp"@ {
        match parse_unsigned(parts[2], u16::MAX as nat) {
            Some(p) => Some(ConnectionTypeView::Udp { address: parts[1], port: p as u16 }),
            None => None,
        }
    } else if parts[0] == "tcpin"@ || parts[0] == "tcp"@ {
        match parse_unsigned(parts[2], u16::MAX as nat) {
            Some(p) => Some(ConnectionTypeView::Tcp { address: parts[1], port: p as u16 }),
            None => None,
        }
    } else {
        None
    }
}

/// The connection string that the MAVLink library is given for a setting.
pub open spec fn connection_string(c: ConnectionTypeView) -> Seq<char> {
    match c {
        ConnectionTypeView::Serial { port, baud_rate } => "serial"@ + ":"@ + port + ":"@ + decimal(
            baud_rate as nat,
        ),
        ConnectionTypeView::Udp { address, port } => "udpin"@ + ":"@ + address + ":"@ + decimal(
            port as nat,
        ),
        ConnectionTypeView::Tcp { address, port } => "tcpin"@ + ":"@ + address + ":"@ + decimal(
            port as nat,
        ),
    }
}

/// The port or address of a setting.
pub open spec fn endpoint(c: ConnectionTypeView) -> Seq<char> {
    match c {
        ConnectionTypeView::Serial { port, .. } => port,
        ConnectionTypeView::Udp { address, .. } => address,
        ConnectionTypeView::Tcp { address, .. } => address,
    }
}

/// An optional setting with its text fields as character sequences.
pub open spec fn opt_connection_view(c: Option<ConnectionType>) -> Option<ConnectionTypeView> {
    match c {
        Some(c) => Some(c@),
        None => None,
    }
}

/// Split `s` at every `:`.
pub fn split_colons(s: &str) -> (res: Vec<String>)
    ensures
        res@.map_values(|p: String| p@) == colon_fields(s@),
{
    let n = s.unicode_len();
    let mut parts: Vec<String> = Vec::new();
    let mut start: usize = 0;
    let mut i: usize = 0;
    proof {
        lemma_next_colon_bounds(s@, 0);
    }
    while i < n
        invariant
            n == s@.len(),
            start <= i <= n,
            forall|k: int| start <= k < i ==> s@[k] != ':',
            parts@.map_values(|p: String| p@) + split_from(s@, start as int) == colon_fields(s@),
        decreases n - i,
    {
        if s.get_char(i) == ':' {
            let piece = s.substring_char(start, i).to_owned();
            proof {
                lemma_next_colon_skip(s@, start as int, i as int);
                assert(next_colon(s@, start as int) == i);
                assert(split_from(s@, start as int) == seq![s@.subrange(start as int, i as int)]
                    + split_from(s@, i + 1));
            }
            let ghost old_parts = parts@.map_values(|p: String| p@);
            parts.push(piece);
            proof {
                assert(parts@.map_values(|p: String| p@) =~= old_parts.push(piece@));
                assert(old_parts.push(piece@) + split_from(s@, i + 1) =~= old_parts + (seq![
                    s@.subrange(start as int, i as int),
                ] + split_from(s@, i + 1)));
            }
            start = i + 1;
        }
        i = i + 1;
    }
    let piece = s.substring_char(start, n).to_owned();
    proof {
        lemma_next_colon_skip(s@, start as int, n as int);
        assert(split_from(s@, start as int) == seq![s@.subrange(start as int, n as int)]);
    }
    let ghost old_parts = parts@.map_values(|p: String| p@);
    parts.push(piece);
    proof {
        assert(parts@.map_values(|p: String| p@) =~= old_parts.push(piece@));
        assert(old_parts.push(piece@) =~= old_parts + seq![s@.subrange(start as int, n as int)]);
    }
    parts
}


/// Parse a connection string such as `udpin:127.0.0.1:14550` or
/// `serial:/dev/ttyUSB0:57600` into a connection setting.
pub fn parse_connection_string(input: &str) -> (res: Option<ConnectionType>)
    ensures
        opt_connection_view(res) == parse_connection(input@),
{
    let parts = split_colons(input);
    let ghost fields = colon_fields(input@);
    assert(parts@.map_values(|p: String| p@).len() == parts@.len());
    if parts.len() < 3 {
        return None;
    }
    assert(parts@[0]@ == fields[0]);
    assert(parts@[1]@ == fields[1]);
    assert(parts@[2]@ == fields[2]);
    let kind = parts[0].as_str();
    let endpoint = parts[1].clone();
    let number = parts[2].as_str();
    if chars_equal(kind, "serial") {
        match parse_unsigned_decimal(number, u32::MAX) {
            Some(baud) => Some(ConnectionType::Serial { port: endpoint, baud_rate: baud }),
            None => None,
        }
    } else if chars_equal(kind, "udpin") || chars_equal(kind, "udp") {
        match parse_unsigned_decimal(number, 65535) {
            Some(port) => Some(ConnectionType::Udp { address: endpoint, port: port as u16 }),
            None => None,
        }
    } else if chars_equal(kind, "tcpin") || chars_equal(kind, "tcp") {
        match parse_unsigned_decimal(number, 65535) {
            Some(port) => Some(ConnectionType::Tcp { address: endpoint, port: port as u16 }),
            None => None,
        }
    } else {
        None
    }
}

/// The connection string that the MAVLink library is given for a setting.
pub fn build_connection_string(connection: &ConnectionType) -> (res: String)
    ensures
        res@ == connection_string(connection@),
{
    let (kind, endpoint, number): (&str, &str, u64) = match connection {
        ConnectionType::Serial { port, baud_rate } => ("serial", port.as_str(), *baud_rate as u64),
        ConnectionType::Udp { address, port } => ("udpin", address.as_str(), *port as u64),
        ConnectionType::Tcp { address, port } => ("tcpin", address.as_str(), *port as u64),
    };
    let mut s = kind.to_owned();
    s.append(":");
    s.append(endpoint);
    s.append(":");
    let digits = decimal_string(number);
    s.append(digits.as_str());
    s
}

/// The fields of `p:a:d` are `p`, `a` and `d` when none of them holds a `:`.
proof fn lemma_three_fields(p: Seq<char>, a: Seq<char>, d: Seq<char>)
    requires
        !p.contains(':'),
        !a.contains(':'),
        !d.contains(':'),
    ensures
        colon_fields(p + seq![':'] + a + seq![':'] + d) == seq![p, a, d],
{
    let s = p + seq![':'] + a + seq![':'] + d;
    let i1 = p.len() as int;
    let i2 = i1 + 1 + a.len();
    assert forall|k: int| 0 <= k < i1 implies s[k] != ':' by {
        assert(s[k] == p[k]);
    }
    assert forall|k: int| i1 + 1 <= k < i2 implies s[k] != ':' by {
        assert(s[k] == a[k - i1 - 1]);
    }
    assert forall|k: int| i2 + 1 <= k < s.len() implies s[k] != ':' by {
        assert(s[k] == d[k - i2 - 1]);
    }
    lemma_next_colon_skip(s, 0, i1);
    lemma_next_colon_skip(s, i1 + 1, i2);
    lemma_next_colon_skip(s, i2 + 1, s.len() as int);
    assert(next_colon(s, 0) == i1);
    assert(next_colon(s, i1 + 1) == i2);
    assert(next_colon(s, i2 + 1) == s.len());
    assert(s.subrange(0, i1) =~= p);
    assert(s.subrange(i1 + 1, i2) =~= a);
    assert(s.subrange(i2 + 1, s.len() as int) =~= d);
    assert(split_from(s, i2 + 1) == seq![d]);
    assert(split_from(s, i1 + 1) =~= seq![a, d]);
    assert(split_from(s, 0) =~= seq![p, a, d]);
}

/// A connection string built from a setting reads back as that setting,
/// as long as its port or address holds no `:`.
pub proof fn lemma_connection_string_round_trip(c: ConnectionTypeView)
    requires
        !endpoint(c).contains(':'),
    ensures
        parse_connection(connection_string(c)) == Some(c),
{
    reveal_strlit("serial");
    reveal_strlit("udpin");
    reveal_strlit("udp");
    reveal_strlit("tcpin");
    reveal_strlit("tcp");
    reveal_strlit(":");
    let (kind, number, max): (Seq<char>, nat, nat) = match c {
        ConnectionTypeView::Serial { baud_rate, .. } => ("serial"@, baud_rate as nat, u32::MAX as nat),
        ConnectionTypeView::Udp { port, .. } => ("udpin"@, port as nat, u16::MAX as nat),
        ConnectionTypeView::Tcp { port, .. } => ("tcpin"@, port as nat, u16::MAX as nat),
    };
    let d = decimal(number);
    lemma_decimal_digits(number);
    lemma_parse_decimal(number, max);
    assert(!kind.contains(':')) by {
        if kind.contains(':') {
            let k = choose|k: int| 0 <= k < kind.len() && kind[k] == ':';
        }
    }
    assert(!d.contains(':')) by {
        if d.contains(':') {
            let k = choose|k: int| 0 <= k < d.len() && d[k] == ':';
            assert(is_digit(d[k]));
        }
    }
    assert(connection_string(c) =~= kind + seq![':'] + endpoint(c) + seq![':'] + d);
    lemma_three_fields(kind, endpoint(c), d);
    assert("serial"@.len() == 6);
    assert("udpin"@.len() == 5);
    assert("udp"@.len() == 3);
    assert("tcpin"@.len() == 5);
    assert("tcp"@.len() == 3);
    assert("udpin"@[0] != "tcpin"@[0]);
    assert("serial"@ != "udpin"@);
    assert("serial"@ != "udp"@);
    assert("udpin"@ != "tcpin"@);
    assert("udpin"@ != "tcp"@);
    assert("serial"@ != "tcpin"@);
    assert("serial"@ != "tcp"@);
}


/// A `COMMAND_LONG` for the autopilot (system 1, component 1) with all
/// parameters zero but the first and the fifth.
pub open spec fn command_long(command: MavCmd, param1: u32, param5: u32) -> OutboundView {
    OutboundView::CommandLong {
        target_system: 1,
        target_component: 1,
        command,
        confirmation: 0,
        param1,
        param2: 0,
        param3: 0,
        param4: 0,
        param5,
        param6: 0,
        param7: 0,
    }
}

/// The `MISSION_ITEM_INT` for a waypoint: always a `NAV_WAYPOINT` in the
/// relative-altitude frame, whatever frame and command the waypoint names.
pub open spec fn mission_item(w: Waypoint) -> OutboundView {
    OutboundView::MissionItemInt {
        target_system: 1,
        target_component: 1,
        seq: w.seq,
        frame: MavFrame::GlobalRelativeAlt,
        command: MavCmd::NavWaypoint,
        current: w.current,
        autocontinue: w.autocontinue,
        param1: w.param1,
        param2: w.param2,
        param3: w.param3,
        param4: w.param4,
        x: w.lat_e7,
        y: w.lon_e7,
        z: w.alt,
    }
}

/// The position-only type mask of a guided target.
pub const POSITION_ONLY_TYPE_MASK: u16 = 0b0000_1111_1111_1000;

/// The ArduPlane custom mode that pauses a mission (LOITER).
pub const PAUSE_MODE: u32 = 12;

/// The ArduPlane custom mode that resumes a mission (AUTO).
pub const RESUME_MODE: u32 = 10;

/// The messages that carry a command to the vehicle, in sending order.
pub open spec fn command_messages(cmd: GcsCommand) -> Seq<OutboundView> {
    match cmd {
        GcsCommand::Arm(arm) => seq![
            command_long(MavCmd::ComponentArmDisarm, if arm { F32_ONE } else { 0 }, 0),
        ],
        GcsCommand::SetMode(mode) => seq![OutboundView::SetMode {
            target_system: 1,
            base_mode: MODE_MANUAL_ARMED,
            custom_mode: mode,
        }],
        GcsCommand::RcOverride { channels } => seq![
            OutboundView::RcChannelsOverride { target_system: 1, target_component: 1, channels },
        ],
        GcsCommand::ReturnToLaunch => seq![command_long(MavCmd::NavReturnToLaunch, 0, 0)],
        GcsCommand::CameraTrigger => seq![command_long(MavCmd::DoDigicamControl, 0, F32_ONE)],
        GcsCommand::GuidedGoto { lat_e7, lon_e7, alt } => seq![
            OutboundView::SetPositionTargetGlobalInt {
                target_system: 1,
                target_component: 1,
                coordinate_frame: MavFrame::GlobalRelativeAltInt,
                type_mask: POSITION_ONLY_TYPE_MASK,
                time_boot_ms: 0,
                lat_int: lat_e7,
                lon_int: lon_e7,
                alt,
                vx: 0,
                vy: 0,
                vz: 0,
                afx: 0,
                afy: 0,
                afz: 0,
                yaw: 0,
                yaw_rate: 0,
            },
        ],
        GcsCommand::UploadMission(waypoints) => seq![
            OutboundView::MissionCount {
                target_system: 1,
                target_component: 1,
                count: waypoints@.len() as u16,
            },
        ] + waypoints@.map_values(|w: Waypoint| mission_item(w)),
        GcsCommand::StartMission => seq![command_long(MavCmd::MissionStart, 0, 0)],
        GcsCommand::PauseMission => seq![
            OutboundView::SetMode {
                target_system: 1,
                base_mode: MODE_MANUAL_ARMED,
                custom_mode: PAUSE_MODE,
            },
        ],
        GcsCommand::ResumeMission => seq![
            OutboundView::SetMode {
                target_system: 1,
                base_mode: MODE_MANUAL_ARMED,
                custom_mode: RESUME_MODE,
            },
        ],
        GcsCommand::RequestDataStream { stream_id, rate_hz } => seq![
            OutboundView::RequestDataStream {
                target_system: 1,
                target_component: 1,
                req_stream_id: stream_id,
                req_message_rate: rate_hz,
                start_stop: 1,
            },
        ],
        GcsCommand::SetParam { param_id, value } => seq![
            OutboundView::ParamSet {
                target_system: 1,
                target_component: 1,
                param_id: padded_field(encode_utf8(param_id@), 16),
                param_value: value,
                param_type: MavParamType::Real32,
            },
        ],
        GcsCommand::GetParam { param_id } => seq![
            OutboundView::ParamRequestRead {
                target_system: 1,
                target_component: 1,
                param_id: padded_field(encode_utf8(param_id@), 16),
                param_index: -1i16,
            },
        ],
        GcsCommand::Reboot => seq![command_long(MavCmd::PreflightRebootShutdown, F32_ONE, 0)],
    }
}

/// Whether `events` are the events that an incoming message raises for the
/// user interface.
pub open spec fn message_events(msg: InboundMessage, events: Seq<VehicleEvent>) -> bool {
    match msg {
        InboundMessage::Heartbeat { custom_mode, base_mode } => events == seq![
            VehicleEvent::ArmStateChanged { armed: mode_flags_armed(base_mode) },
            VehicleEvent::ModeChanged { mode: custom_mode },
        ],
        InboundMessage::StatusText { severity, text } => {
            &&& events.len() == 1
            &&& events[0] matches VehicleEvent::StatusText { severity: s, text: t }
            &&& s == severity
            &&& t@ == field_text(text@)
        },
        InboundMessage::ParamValue { param_id, param_value, param_type, param_count, param_index } => {
            &&& events.len() == 1
            &&& events[0] matches VehicleEvent::ParamValue {
                param_id: id,
                value: v,
                param_type: pt,
                param_count: pc,
                param_index: pi,
            }
            &&& id@ == field_text(param_id@)
            &&& v == param_value
            &&& pt == param_type
            &&& pc == param_count
            &&& pi == param_index
        },
        InboundMessage::MissionAck { mavtype } => events == seq![
            VehicleEvent::MissionAck { result: mavtype },
        ],
        _ => events.len() == 0,
    }
}

/// The stream requests made after connecting: (MAV_DATA_STREAM id, rate in Hz).
pub open spec fn data_stream_requests() -> Seq<(u8, u16)> {
    seq![(0u8, 4u16), (1, 2), (2, 2), (3, 5), (6, 4), (10, 10), (11, 10), (12, 2)]
}

/// The `REQUEST_DATA_STREAM` that starts a stream at a rate.
pub open spec fn stream_request(stream: (u8, u16)) -> OutboundView {
    OutboundView::RequestDataStream {
        target_system: 1,
        target_component: 1,
        req_stream_id: stream.0,
        req_message_rate: stream.1,
        start_stop: 1,
    }
}

/// The link to the flight controller: its setting, the identity of the
/// station and whether the link is up.
pub struct MavConnection {
    connection_type: ConnectionType,
    system_id: u8,
    component_id: u8,
    connected: bool,
}

impl MavConnection {
    pub closed spec fn setting(&self) -> ConnectionTypeView {
        self.connection_type@
    }

    pub closed spec fn spec_system_id(&self) -> u8 {
        self.system_id
    }

    pub closed spec fn spec_component_id(&self) -> u8 {
        self.component_id
    }

    pub closed spec fn spec_connected(&self) -> bool {
        self.connected
    }

    /// A link, not yet up, for a setting; the station is system 255,
    /// component 190 (mission planner).
    pub fn new(connection_type: ConnectionType) -> (res: MavConnection)
        ensures
            res.setting() == connection_type@,
            res.spec_system_id() == 255,
            res.spec_component_id() == 190,
            !res.spec_connected(),
    {
        MavConnection { connection_type, system_id: 255, component_id: 190, connected: false }
    }

    /// The heartbeat bookkeeping for this link: the station's identity, a
    /// 3000 ms timeout and a 1000 ms send interval.
    pub fn heartbeat_manager(&self) -> (res: HeartbeatManager)
        ensures
            res@ == (HeartbeatState {
                system_id: self.spec_system_id(),
                component_id: self.spec_component_id(),
                last_fc_heartbeat_ms: 0,
                timeout_ms: 3000,
                interval_ms: 1000,
                timed_out: false,
            }),
    {
        HeartbeatManager::new(self.system_id, self.component_id, 3000, 1000)
    }

    /// Whether the link is up.
    pub fn is_connected(&self) -> (res: bool)
        ensures
            res == self.spec_connected(),
    {
        self.connected
    }

    pub fn system_id(&self) -> (res: u8)
        ensures
            res == self.spec_system_id(),
    {
        self.system_id
    }

    pub fn component_id(&self) -> (res: u8)
        ensures
            res == self.spec_component_id(),
    {
        self.component_id
    }

    /// The connection string that the MAVLink library is given.
    pub fn build_connection_string(&self) -> (res: String)
        ensures
            res@ == connection_string(self.setting()),
    {
        build_connection_string(&self.connection_type)
    }

    /// The header of the frames that the station sends on this link.
    pub fn header(&self) -> (res: MavHeader)
        ensures
            res == (MavHeader {
                system_id: self.spec_system_id(),
                component_id: self.spec_component_id(),
                sequence: 0,
            }),
    {
        MavHeader { system_id: self.system_id, component_id: self.component_id, sequence: 0 }
    }

    /// Take the outcome of opening the link. On failure the error carries the
    /// MAVLink library's message and the link stays down; on success the link
    /// is up and the `Connected` event is returned.
    pub fn connect(&mut self, opened: Result<(), String>) -> (res: Result<VehicleEvent, ProtocolError>)
        ensures
            final(self).setting() == old(self).setting(),
            final(self).spec_system_id() == old(self).spec_system_id(),
            final(self).spec_component_id() == old(self).spec_component_id(),
            match opened {
                Ok(_) => {
                    &&& final(self).spec_connected()
                    &&& res matches Ok(VehicleEvent::Connected { connection, system_id, component_id })
                    &&& connection@ == old(self).setting()
                    &&& system_id == old(self).spec_system_id()
                    &&& component_id == old(self).spec_component_id()
                },
                Err(e) => {
                    &&& final(self).spec_connected() == old(self).spec_connected()
                    &&& res matches Err(ProtocolError::ConnectionFailed(m))
                    &&& m@ == e@
                },
            },
    {
        match opened {
            Ok(()) => {
                self.connected = true;
                Ok(
                    VehicleEvent::Connected {
                        connection: self.connection_type.clone(),
                        system_id: self.system_id,
                        component_id: self.component_id,
                    },
                )
            },
            Err(e) => Err(ProtocolError::ConnectionFailed(e)),
        }
    }

    /// Close the link; the returned event says that the user asked for it.
    pub fn disconnect(&mut self) -> (res: VehicleEvent)
        ensures
            !final(self).spec_connected(),
            final(self).setting() == old(self).setting(),
            final(self).spec_system_id() == old(self).spec_system_id(),
            final(self).spec_component_id() == old(self).spec_component_id(),
            res matches VehicleEvent::Disconnected { reason } && reason@ == "User disconnected"@,
    {
        self.connected = false;
        VehicleEvent::Disconnected { reason: "User disconnected".to_owned() }
    }

    /// The stream requests sent to the flight controller after connecting.
    pub fn request_data_streams(&self) -> (res: Vec<OutboundMessage>)
        ensures
            res@.map_values(|m: OutboundMessage| m@) == data_stream_requests().map_values(
                |s: (u8, u16)| stream_request(s),
            ),
    {
        let streams: [(u8, u16); 8] = [(0, 4), (1, 2), (2, 2), (3, 5), (6, 4), (10, 10), (11, 10), (12, 2)];
        let ghost expected = data_stream_requests().map_values(|s: (u8, u16)| stream_request(s));
        assert(streams@ == data_stream_requests());
        let mut res: Vec<OutboundMessage> = Vec::new();
        let mut i: usize = 0;
        while i < 8
            invariant
                i <= 8,
                streams@ == data_stream_requests(),
                expected == data_stream_requests().map_values(|s: (u8, u16)| stream_request(s)),
                res@.map_values(|m: OutboundMessage| m@) == expected.take(i as int),
            decreases 8 - i,
        {
            let (stream, rate) = streams[i];
            let msg = OutboundMessage::RequestDataStream {
                target_system: 1,
                target_component: 1,
                req_stream_id: stream,
                req_message_rate: rate,
                start_stop: 1,
            };
            let ghost before = res@.map_values(|m: OutboundMessage| m@);
            res.push(msg);
            assert(res@.map_values(|m: OutboundMessage| m@) =~= before.push(msg@));
            assert(expected.take(i + 1) =~= expected.take(i as int).push(expected[i as int]));
            i = i + 1;
        }
        assert(expected.take(8) =~= expected);
        res
    }

    /// The messages that carry a command to the vehicle, in sending order.
    pub fn send_command(cmd: &GcsCommand) -> (res: Vec<OutboundMessage>)
        ensures
            res@.map_values(|m: OutboundMessage| m@) == command_messages(*cmd),
    {
        let msg = match cmd {
            GcsCommand::Arm(arm) => {
                let p1: u32 = if *arm {
                    F32_ONE
                } else {
                    0
                };
                command_long_message(MavCmd::ComponentArmDisarm, p1, 0)
            },
            GcsCommand::SetMode(mode) => OutboundMessage::SetMode {
                target_system: 1,
                base_mode: MODE_MANUAL_ARMED,
                custom_mode: *mode,
            },
            GcsCommand::RcOverride { channels } => OutboundMessage::RcChannelsOverride {
                target_system: 1,
                target_component: 1,
                channels: *channels,
            },
            GcsCommand::ReturnToLaunch => command_long_message(MavCmd::NavReturnToLaunch, 0, 0),
            GcsCommand::CameraTrigger => command_long_message(MavCmd::DoDigicamControl, 0, F32_ONE),
            GcsCommand::GuidedGoto { lat_e7, lon_e7, alt } =>
                OutboundMessage::SetPositionTargetGlobalInt {
                target_system: 1,
                target_component: 1,
                coordinate_frame: MavFrame::GlobalRelativeAltInt,
                type_mask: POSITION_ONLY_TYPE_MASK,
                time_boot_ms: 0,
                lat_int: *lat_e7,
                lon_int: *lon_e7,
                alt: *alt,
                vx: 0,
                vy: 0,
                vz: 0,
                afx: 0,
                afy: 0,
                afz: 0,
                yaw: 0,
                yaw_rate: 0,
            },
            GcsCommand::UploadMission(waypoints) => {
                return mission_upload(waypoints);
            },
            GcsCommand::StartMission => command_long_message(MavCmd::MissionStart, 0, 0),
            GcsCommand::PauseMission => OutboundMessage::SetMode {
                target_system: 1,
                base_mode: MODE_MANUAL_ARMED,
                custom_mode: PAUSE_MODE,
            },
            GcsCommand::ResumeMission => OutboundMessage::SetMode {
                target_system: 1,
                base_mode: MODE_MANUAL_ARMED,
                custom_mode: RESUME_MODE,
            },
            GcsCommand::RequestDataStream { stream_id, rate_hz } =>
                OutboundMessage::RequestDataStream {
                target_system: 1,
                target_component: 1,
                req_stream_id: *stream_id,
                req_message_rate: *rate_hz,
                start_stop: 1,
            },
            GcsCommand::SetParam { param_id, value } => OutboundMessage::ParamSet {
                target_system: 1,
                target_component: 1,
                param_id: param_id_field(param_id.as_str()),
                param_value: *value,
                param_type: MavParamType::Real32,
            },
            GcsCommand::GetParam { param_id } => OutboundMessage::ParamRequestRead {
                target_system: 1,
                target_component: 1,
                param_id: param_id_field(param_id.as_str()),
                param_index: -1,
            },
            GcsCommand::Reboot => command_long_message(MavCmd::PreflightRebootShutdown, F32_ONE, 0),
        };
        let mut res: Vec<OutboundMessage> = Vec::new();
        res.push(msg);
        assert(res@.map_values(|m: OutboundMessage| m@) =~= command_messages(*cmd));
        res
    }

    /// The events that an incoming message raises for the user interface.
    pub fn process_message(msg: &InboundMessage) -> (res: Vec<VehicleEvent>)
        ensures
            message_events(*msg, res@),
    {
        let mut events: Vec<VehicleEvent> = Vec::new();
        match msg {
            InboundMessage::Heartbeat { custom_mode, base_mode } => {
                events.push(VehicleEvent::ArmStateChanged { armed: is_armed(*base_mode) });
                events.push(VehicleEvent::ModeChanged { mode: *custom_mode });
            },
            InboundMessage::StatusText { severity, text } => {
                let text = text_of_field(text.as_slice());
                events.push(VehicleEvent::StatusText { severity: *severity, text });
            },
            InboundMessage::ParamValue { param_id, param_value, param_type, param_count, param_index } => {
                let param_id = text_of_field(param_id.as_slice());
                events.push(
                    VehicleEvent::ParamValue {
                        param_id,
                        value: *param_value,
                        param_type: *param_type,
                        param_count: *param_count,
                        param_index: *param_index,
                    },
                );
            },
            InboundMessage::MissionAck { mavtype } => {
                events.push(VehicleEvent::MissionAck { result: *mavtype });
            },
            _ => {},
        }
        proof {
            match *msg {
                InboundMessage::Heartbeat { .. } => {
                    assert(events@ =~= message_events_heartbeat(*msg));
                },
                InboundMessage::MissionAck { mavtype } => {
                    assert(events@ =~= seq![VehicleEvent::MissionAck { result: mavtype }]);
                },
                _ => {},
            }
        }
        events
    }

    /// The error that a failed send is reported with.
    pub fn send_error(detail: String) -> (res: ProtocolError)
        ensures
            res matches ProtocolError::ConnectionFailed(m) && m@ == "Send failed: "@ + detail@,
    {
        let mut m = "Send failed: ".to_owned();
        m.append(detail.as_str());
        ProtocolError::ConnectionFailed(m)
    }
}

/// The two events of a heartbeat, as a sequence.
spec fn message_events_heartbeat(msg: InboundMessage) -> Seq<VehicleEvent> {
    match msg {
        InboundMessage::Heartbeat { custom_mode, base_mode } => seq![
            VehicleEvent::ArmStateChanged { armed: mode_flags_armed(base_mode) },
            VehicleEvent::ModeChanged { mode: custom_mode },
        ],
        _ => Seq::empty(),
    }
}

fn command_long_message(command: MavCmd, param1: u32, param5: u32) -> (res: OutboundMessage)
    ensures
        res@ == command_long(command, param1, param5),
{
    OutboundMessage::CommandLong {
        target_system: 1,
        target_component: 1,
        command,
        confirmation: 0,
        param1,
        param2: 0,
        param3: 0,
        param4: 0,
        param5,
        param6: 0,
        param7: 0,
    }
}

fn mission_upload(waypoints: &Vec<Waypoint>) -> (res: Vec<OutboundMessage>)
    ensures
        res@.map_values(|m: OutboundMessage| m@) == seq![
            OutboundView::MissionCount {
                target_system: 1,
                target_component: 1,
                count: waypoints@.len() as u16,
            },
        ] + waypoints@.map_values(|w: Waypoint| mission_item(w)),
{
    let mut res: Vec<OutboundMessage> = Vec::new();
    let count = waypoints.len() as u16;
    res.push(OutboundMessage::MissionCount { target_system: 1, target_component: 1, count });
    let ghost head = seq![
        OutboundView::MissionCount {
            target_system: 1,
            target_component: 1,
            count: waypoints@.len() as u16,
        },
    ];
    let ghost items = waypoints@.map_values(|w: Waypoint| mission_item(w));
    assert(res@.map_values(|m: OutboundMessage| m@) =~= head + items.take(0));
    let mut i: usize = 0;
    while i < waypoints.len()
        invariant
            i <= waypoints@.len(),
            items == waypoints@.map_values(|w: Waypoint| mission_item(w)),
            res@.map_values(|m: OutboundMessage| m@) == head + items.take(i as int),
        decreases waypoints@.len() - i,
    {
        let w = waypoints[i];
        let item = OutboundMessage::MissionItemInt {
            target_system: 1,
            target_component: 1,
            seq: w.seq,
            frame: MavFrame::GlobalRelativeAlt,
            command: MavCmd::NavWaypoint,
            current: w.current,
            autocontinue: w.autocontinue,
            param1: w.param1,
            param2: w.param2,
            param3: w.param3,
            param4: w.param4,
            x: w.lat_e7,
            y: w.lon_e7,
            z: w.alt,
        };
        let ghost before = res@.map_values(|m: OutboundMessage| m@);
        res.push(item);
        assert(res@.map_values(|m: OutboundMessage| m@) =~= before.push(item@));
        assert(items.take(i + 1) =~= items.take(i as int).push(items[i as int]));
        assert(head + items.take(i + 1) =~= (head + items.take(i as int)).push(items[i as int]));
        i = i + 1;
    }
    assert(items.take(waypoints@.len() as int) =~= items);
    res
}

/// Whether `m` is a `COMMAND_LONG` for the autopilot (system 1, component 1)
/// with the command `command`, confirmation 0, first parameter `param1`,
/// fifth parameter `param5` and every other parameter 0.
pub open spec fn is_command_long(m: OutboundView, command: MavCmd, param1: u32, param5: u32) -> bool {
    m matches OutboundView::CommandLong {
        target_system: 1,
        target_component: 1,
        command: c,
        confirmation: 0,
        param1: p1,
        param2: 0,
        param3: 0,
        param4: 0,
        param5: p5,
        param6: 0,
        param7: 0,
    } && c == command && p1 == param1 && p5 == param5
}

/// A mission upload is one `MISSION_COUNT` with the number of waypoints,
/// then, in the mission's order, one `MISSION_ITEM_INT` per waypoint that
/// carries the waypoint's own sequence number, flags, parameters and
/// coordinates field for field, as a `NAV_WAYPOINT` in the relative-altitude
/// frame, addressed to system 1, component 1.
pub proof fn lemma_mission_upload_carries_waypoints(waypoints: Vec<Waypoint>)
    ensures
        ({
            let msgs = command_messages(GcsCommand::UploadMission(waypoints));
            let wps = waypoints@;
            &&& msgs.len() == wps.len() + 1
            &&& msgs[0] == OutboundView::MissionCount {
                target_system: 1,
                target_component: 1,
                count: wps.len() as u16,
            }
            &&& forall|i: int|
                0 <= i < wps.len() ==> {
                    let w = #[trigger] wps[i];
                    msgs[i + 1] == OutboundView::MissionItemInt {
                        target_system: 1,
                        target_component: 1,
                        seq: w.seq,
                        frame: MavFrame::GlobalRelativeAlt,
                        command: MavCmd::NavWaypoint,
                        current: w.current,
                        autocontinue: w.autocontinue,
                        param1: w.param1,
                        param2: w.param2,
                        param3: w.param3,
                        param4: w.param4,
                        x: w.lat_e7,
                        y: w.lon_e7,
                        z: w.alt,
                    }
                }
        }),
{
    let msgs = command_messages(GcsCommand::UploadMission(waypoints));
    let wps = waypoints@;
    assert forall|i: int| 0 <= i < wps.len() implies msgs[i + 1] == mission_item(#[trigger] wps[i]) by {
        assert(msgs[i + 1] == wps.map_values(|w: Waypoint| mission_item(w))[i]);
    }
}

/// Every command but a mission upload is carried by exactly one message,
/// addressed to the autopilot (system 1, and component 1 where the message
/// names one), with these fields:
/// - arm / disarm: `COMPONENT_ARM_DISARM` with 1.0 / 0.0 first;
/// - return to launch, start mission: their `COMMAND_LONG` with all zeros;
/// - camera trigger: `DO_DIGICAM_CONTROL` with 1.0 fifth;
/// - reboot: `PREFLIGHT_REBOOT_SHUTDOWN` with 1.0 first;
/// - set mode / pause / resume: `SET_MODE` with `MANUAL_ARMED` (192) and
///   the mode, LOITER (12) to pause, AUTO (10) to resume;
/// - RC override: the eight channels as given;
/// - guided goto: a position-only target (type mask 0x0FF8) in the
///   relative-altitude integer frame at the given coordinates, with time,
///   velocities, accelerations and yaw all zero;
/// - stream request: the stream and rate, started (1);
/// - parameter set / get: the name's UTF-8 bytes cut or zero-padded to 16,
///   with the value as `REAL32` / with index -1.
pub proof fn lemma_command_encodings(cmd: GcsCommand)
    ensures
        !(cmd is UploadMission) ==> command_messages(cmd).len() == 1,
        ({
            let m = command_messages(cmd)[0];
            match cmd {
                GcsCommand::Arm(arm) => is_command_long(
                    m,
                    MavCmd::ComponentArmDisarm,
                    if arm {
                        0x3F80_0000u32
                    } else {
                        0u32
                    },
                    0,
                ),
                GcsCommand::ReturnToLaunch => is_command_long(m, MavCmd::NavReturnToLaunch, 0, 0),
                GcsCommand::StartMission => is_command_long(m, MavCmd::MissionStart, 0, 0),
                GcsCommand::CameraTrigger => is_command_long(
                    m,
                    MavCmd::DoDigicamControl,
                    0,
                    0x3F80_0000u32,
                ),
                GcsCommand::Reboot => is_command_long(
                    m,
                    MavCmd::PreflightRebootShutdown,
                    0x3F80_0000u32,
                    0,
                ),
                GcsCommand::SetMode(mode) => m == OutboundView::SetMode {
                    target_system: 1,
                    base_mode: 192,
                    custom_mode: mode,
                },
                GcsCommand::PauseMission => m == OutboundView::SetMode {
                    target_system: 1,
                    base_mode: 192,
                    custom_mode: 12,
                },
                GcsCommand::ResumeMission => m == OutboundView::SetMode {
                    target_system: 1,
                    base_mode: 192,
                    custom_mode: 10,
                },
                GcsCommand::RcOverride { channels } => m == OutboundView::RcChannelsOverride {
                    target_system: 1,
                    target_component: 1,
                    channels,
                },
                GcsCommand::GuidedGoto { lat_e7, lon_e7, alt } => m
                    == OutboundView::SetPositionTargetGlobalInt {
                    target_system: 1,
                    target_component: 1,
                    coordinate_frame: MavFrame::GlobalRelativeAltInt,
                    type_mask: 0x0FF8,
                    time_boot_ms: 0,
                    lat_int: lat_e7,
                    lon_int: lon_e7,
                    alt,
                    vx: 0,
                    vy: 0,
                    vz: 0,
                    afx: 0,
                    afy: 0,
                    afz: 0,
                    yaw: 0,
                    yaw_rate: 0,
                },
                GcsCommand::RequestDataStream { stream_id, rate_hz } => m
                    == OutboundView::RequestDataStream {
                    target_system: 1,
                    target_component: 1,
                    req_stream_id: stream_id,
                    req_message_rate: rate_hz,
                    start_stop: 1,
                },
                GcsCommand::SetParam { param_id, value } => {
                    let bytes = encode_utf8(param_id@);
                    &&& m matches OutboundView::ParamSet {
                        target_system: 1,
                        target_component: 1,
                        param_id: id,
                        param_value: v,
                        param_type: MavParamType::Real32,
                    }
                    &&& v == value
                    &&& id.len() == 16
                    &&& forall|i: int|
                        0 <= i < 16 ==> #[trigger] id[i] == if i < bytes.len() {
                            bytes[i]
                        } else {
                            0u8
                        }
                },
                GcsCommand::GetParam { param_id } => {
                    let bytes = encode_utf8(param_id@);
                    &&& m matches OutboundView::ParamRequestRead {
                        target_system: 1,
                        target_component: 1,
                        param_id: id,
                        param_index: -1,
                    }
                    &&& id.len() == 16
                    &&& forall|i: int|
                        0 <= i < 16 ==> #[trigger] id[i] == if i < bytes.len() {
                            bytes[i]
                        } else {
                            0u8
                        }
                },
                GcsCommand::UploadMission(_) => true,
            }
        }),
{
}

/// A heartbeat raises two events, in this order: the arm state, armed
/// exactly when the SAFETY_ARMED bit (128) of the base mode is set whatever
/// the other flags, then the custom mode as it came.
pub proof fn lemma_heartbeat_events(custom_mode: u32, base_mode: u8, events: Seq<VehicleEvent>)
    requires
        message_events(InboundMessage::Heartbeat { custom_mode, base_mode }, events),
    ensures
        events == seq![
            VehicleEvent::ArmStateChanged { armed: base_mode >= 128 },
            VehicleEvent::ModeChanged { mode: custom_mode },
        ],
{
    crate::frames::lemma_armed_is_top_bit(base_mode);
}

/// How many events a message raises: two for a heartbeat, one for a status
/// text, a parameter value or a mission acknowledgement, none otherwise.
pub open spec fn event_count(msg: InboundMessage) -> int {
    match msg {
        InboundMessage::Heartbeat { .. } => 2,
        InboundMessage::StatusText { .. } => 1,
        InboundMessage::ParamValue { .. } => 1,
        InboundMessage::MissionAck { .. } => 1,
        _ => 0,
    }
}

/// Only heartbeats, status texts, parameter values and mission
/// acknowledgements raise events, one each but two for a heartbeat; a
/// mission acknowledgement carries its result as it came, and a status text
/// or parameter value its numbers as they came.
pub proof fn lemma_message_event_counts(msg: InboundMessage, events: Seq<VehicleEvent>)
    requires
        message_events(msg, events),
    ensures
        events.len() == event_count(msg),
        (msg matches InboundMessage::MissionAck { mavtype } ==> events[0]
            == VehicleEvent::MissionAck { result: mavtype }),
        (msg matches InboundMessage::StatusText { severity, .. } ==> (events[0] matches VehicleEvent::StatusText {
            severity: s,
            ..
        } && s == severity)),
        (msg matches InboundMessage::ParamValue { param_value, param_type, param_count, param_index, .. }
            ==> (events[0] matches VehicleEvent::ParamValue {
            value: v,
            param_type: t,
            param_count: c,
            param_index: i,
            ..
        } && v == param_value && t == param_type && c == param_count && i == param_index)),
{
}

/// The transports a connection string names: `serial:PORT:BAUD`,
/// `udpin:ADDRESS:PORT` or `udp:...`, `tcpin:ADDRESS:PORT` or `tcp:...`;
/// settings are written back with `serial`, `udpin` and `tcpin`, and the
/// number in decimal.
pub proof fn lemma_connection_transports(p: Seq<char>, a: Seq<char>, n: u16, b: u32)
    requires
        !p.contains(':'),
        !a.contains(':'),
    ensures
        connection_string(ConnectionTypeView::Serial { port: p, baud_rate: b }) == "serial:"@ + p
            + ":"@ + decimal(b as nat),
        connection_string(ConnectionTypeView::Udp { address: a, port: n }) == "udpin:"@ + a + ":"@
            + decimal(n as nat),
        connection_string(ConnectionTypeView::Tcp { address: a, port: n }) == "tcpin:"@ + a + ":"@
            + decimal(n as nat),
        parse_connection("udp:"@ + a + ":"@ + decimal(n as nat)) == Some(
            ConnectionTypeView::Udp { address: a, port: n },
        ),
        parse_connection("tcp:"@ + a + ":"@ + decimal(n as nat)) == Some(
            ConnectionTypeView::Tcp { address: a, port: n },
        ),
        parse_connection("udpin:"@ + a + ":"@ + decimal(n as nat)) == Some(
            ConnectionTypeView::Udp { address: a, port: n },
        ),
        parse_connection("serial:"@ + p + ":"@ + decimal(b as nat)) == Some(
            ConnectionTypeView::Serial { port: p, baud_rate: b },
        ),
{
    reveal_strlit("serial:");
    reveal_strlit("udpin:");
    reveal_strlit("tcpin:");
    reveal_strlit("udp:");
    reveal_strlit("tcp:");
    reveal_strlit("serial");
    reveal_strlit("udpin");
    reveal_strlit("tcpin");
    reveal_strlit("udp");
    reveal_strlit("tcp");
    reveal_strlit(":");
    assert("serial:"@ =~= "serial"@ + ":"@);
    assert("udpin:"@ =~= "udpin"@ + ":"@);
    assert("tcpin:"@ =~= "tcpin"@ + ":"@);
    let s = ConnectionTypeView::Serial { port: p, baud_rate: b };
    let u = ConnectionTypeView::Udp { address: a, port: n };
    let t = ConnectionTypeView::Tcp { address: a, port: n };
    assert(connection_string(s) =~= "serial:"@ + p + ":"@ + decimal(b as nat));
    assert(connection_string(u) =~= "udpin:"@ + a + ":"@ + decimal(n as nat));
    assert(connection_string(t) =~= "tcpin:"@ + a + ":"@ + decimal(n as nat));
    lemma_connection_string_round_trip(s);
    lemma_connection_string_round_trip(u);
    // the short transport names read the same way
    let d = decimal(n as nat);
    lemma_decimal_digits(n as nat);
    lemma_parse_decimal(n as nat, u16::MAX as nat);
    assert(!d.contains(':')) by {
        if d.contains(':') {
            let k = choose|k: int| 0 <= k < d.len() && d[k] == ':';
            assert(is_digit(d[k]));
        }
    }
    assert(!"udp"@.contains(':')) by {
        if "udp"@.contains(':') {
            let k = choose|k: int| 0 <= k < "udp"@.len() && "udp"@[k] == ':';
        }
    }
    assert(!"tcp"@.contains(':')) by {
        if "tcp"@.contains(':') {
            let k = choose|k: int| 0 <= k < "tcp"@.len() && "tcp"@[k] == ':';
        }
    }
    assert("udp:"@ + a + ":"@ + d =~= "udp"@ + seq![':'] + a + seq![':'] + d);
    assert("tcp:"@ + a + ":"@ + d =~= "tcp"@ + seq![':'] + a + seq![':'] + d);
    lemma_three_fields("udp"@, a, d);
    lemma_three_fields("tcp"@, a, d);
    assert("udp"@ != "serial"@);
    assert("udp"@ != "udpin"@);
    assert("tcp"@ != "serial"@);
    assert("tcp"@ != "udpin"@);
    assert("tcp"@ != "udp"@);
    assert("tcp"@ != "tcpin"@);
}

/// After connecting, eight streams are started on the autopilot (system 1,
/// component 1), in this order and at these rates in Hz: all 4, raw sensors
/// 2, extended status 2, RC channels 5, position 4, extra 1 (attitude) 10,
/// extra 2 (VFR HUD) 10, extra 3 2.
pub proof fn lemma_stream_requests()
    ensures
        ({
            let msgs = data_stream_requests().map_values(|s: (u8, u16)| stream_request(s));
            let expected: Seq<(u8, u16)> = seq![
                (0u8, 4u16),
                (1u8, 2u16),
                (2u8, 2u16),
                (3u8, 5u16),
                (6u8, 4u16),
                (10u8, 10u16),
                (11u8, 10u16),
                (12u8, 2u16),
            ];
            &&& msgs.len() == 8
            &&& forall|i: int|
                0 <= i < 8 ==> #[trigger] msgs[i] == OutboundView::RequestDataStream {
                    target_system: 1,
                    target_component: 1,
                    req_stream_id: expected[i].0,
                    req_message_rate: expected[i].1,
                    start_stop: 1,
                }
        }),
{
}

} // verus!
