use vstd::prelude::*;
use vstd::string::StringSliceAdditionalSpecFns;
use vstd::utf8::{decode_utf8, valid_utf8};

verus! {

/// The bit pattern of the single-precision value 1.0.
pub const F32_ONE: u32 = 0x3F80_0000;

/// The `SAFETY_ARMED` flag of a heartbeat's base mode.
pub const MODE_FLAG_SAFETY_ARMED: u8 = 128;

/// The base mode `MAV_MODE_MANUAL_ARMED`: the flags `SAFETY_ARMED` and
/// `MANUAL_INPUT_ENABLED`.
pub const MODE_MANUAL_ARMED: u8 = 192;

/// The header of an outgoing MAVLink frame.
#[derive(Debug, Clone, Copy, PartialEq, Eq, Structural)]
pub struct MavHeader {
    pub system_id: u8,
    pub component_id: u8,
    pub sequence: u8,
}

/// The messages from the flight controller that the station reads, with
/// their fields in MAVLink units. Single-precision fields are carried as
/// their IEEE-754 bit patterns.
#[derive(Debug, Clone)]
pub enum InboundMessage {
    Heartbeat { custom_mode: u32, base_mode: u8 },
    /// Angles in radians and rates in radians per second.
    Attitude { roll: u32, pitch: u32, yaw: u32, rollspeed: u32, pitchspeed: u32, yawspeed: u32 },
    /// Degrees scaled by 10^7, altitudes in millimeters, vertical speed in
    /// cm/s positive down, heading in centidegrees.
    GlobalPositionInt { lat: i32, lon: i32, alt: i32, relative_alt: i32, vz: i16, hdg: u16 },
    GpsRawInt { fix_type: u8, satellites_visible: u8, eph: u16 },
    /// Speeds in m/s, heading in degrees.
    VfrHud { airspeed: u32, groundspeed: u32, heading: i16, climb: u32 },
    /// Voltage in mV, current in cA, remaining capacity in percent.
    SysStatus { voltage_battery: u16, current_battery: i16, battery_remaining: i8 },
    /// Consumed charge in mAh.
    BatteryStatus { current_consumed: i32, battery_remaining: i8 },
    RcChannels { rssi: u8, channels: [u16; 8] },
    /// Degrees scaled by 10^7 and altitude in millimeters.
    HomePosition { latitude: i32, longitude: i32, altitude: i32 },
    MissionCurrent { seq: u16 },
    /// Distance to the active waypoint in meters.
    NavControllerOutput { wp_dist: u16 },
    StatusText { severity: u8, text: Vec<u8> },
    ParamValue { param_id: Vec<u8>, param_value: u32, param_type: u8, param_count: u16, param_index: u16 },
    CommandAck { command: u16, result: u8 },
    MissionAck { mavtype: u8 },
    /// Any other message.
    Other,
}

/// The MAVLink commands that the station issues.
#[derive(Debug, Clone, Copy, PartialEq, Eq, Structural)]
pub enum MavCmd {
    ComponentArmDisarm,
    NavReturnToLaunch,
    DoDigicamControl,
    MissionStart,
    PreflightRebootShutdown,
    NavWaypoint,
}

/// The MAVLink coordinate frames that the station uses.
#[derive(Debug, Clone, Copy, PartialEq, Eq, Structural)]
pub enum MavFrame {
    GlobalRelativeAlt,
    GlobalRelativeAltInt,
}

/// The MAVLink vehicle types that the station announces itself as.
#[derive(Debug, Clone, Copy, PartialEq, Eq, Structural)]
pub enum MavType {
    Gcs,
}

/// The MAVLink autopilot kinds that the station announces.
#[derive(Debug, Clone, Copy, PartialEq, Eq, Structural)]
pub enum MavAutopilot {
    Invalid,
}

/// The MAVLink system states that the station announces.
#[derive(Debug, Clone, Copy, PartialEq, Eq, Structural)]
pub enum MavState {
    Active,
}

/// The MAVLink parameter types that the station writes.
#[derive(Debug, Clone, Copy, PartialEq, Eq, Structural)]
pub enum MavParamType {
    Real32,
}

/// The messages that the station sends to the flight controller.
/// Single-precision fields are carried as their IEEE-754 bit patterns.
#[derive(Debug, Clone)]
pub enum OutboundMessage {
    /// A heartbeat: what the sender is, its mode flags and state.
    Heartbeat {
        custom_mode: u32,
        mavtype: MavType,
        autopilot: MavAutopilot,
        base_mode: u8,
        system_status: MavState,
        mavlink_version: u8,
    },
    CommandLong {
        target_system: u8,
        target_component: u8,
        command: MavCmd,
        confirmation: u8,
        param1: u32,
        param2: u32,
        param3: u32,
        param4: u32,
        param5: u32,
        param6: u32,
        param7: u32,
    },
    /// A mode change; `base_mode` holds MAVLink mode flags.
    SetMode { target_system: u8, base_mode: u8, custom_mode: u32 },
    RcChannelsOverride { target_system: u8, target_component: u8, channels: [u16; 8] },
    /// A position target; coordinates in degrees scaled by 10^7, velocities,
    /// accelerations and yaw as single-precision bit patterns.
    SetPositionTargetGlobalInt {
        target_system: u8,
        target_component: u8,
        coordinate_frame: MavFrame,
        type_mask: u16,
        time_boot_ms: u32,
        lat_int: i32,
        lon_int: i32,
        alt: u32,
        vx: u32,
        vy: u32,
        vz: u32,
        afx: u32,
        afy: u32,
        afz: u32,
        yaw: u32,
        yaw_rate: u32,
    },
    MissionCount { target_system: u8, target_component: u8, count: u16 },
    MissionItemInt {
        target_system: u8,
        target_component: u8,
        seq: u16,
        frame: MavFrame,
        command: MavCmd,
        current: u8,
        autocontinue: u8,
        param1: u32,
        param2: u32,
        param3: u32,
        param4: u32,
        x: i32,
        y: i32,
        z: u32,
    },
    RequestDataStream {
        target_system: u8,
        target_component: u8,
        req_stream_id: u8,
        req_message_rate: u16,
        start_stop: u8,
    },
    /// A parameter write.
    ParamSet {
        target_system: u8,
        target_component: u8,
        param_id: Vec<u8>,
        param_value: u32,
        param_type: MavParamType,
    },
    ParamRequestRead { target_system: u8, target_component: u8, param_id: Vec<u8>, param_index: i16 },
}

/// An outbound message with its byte fields as sequences.
pub enum OutboundView {
    Heartbeat {
        custom_mode: u32,
        mavtype: MavType,
        autopilot: MavAutopilot,
        base_mode: u8,
        system_status: MavState,
        mavlink_version: u8,
    },
    CommandLong {
        target_system: u8,
        target_component: u8,
        command: MavCmd,
        confirmation: u8,
        param1: u32,
        param2: u32,
        param3: u32,
        param4: u32,
        param5: u32,
        param6: u32,
        param7: u32,
    },
    SetMode { target_system: u8, base_mode: u8, custom_mode: u32 },
    RcChannelsOverride { target_system: u8, target_component: u8, channels: [u16; 8] },
    SetPositionTargetGlobalInt {
        target_system: u8,
        target_component: u8,
        coordinate_frame: MavFrame,
        type_mask: u16,
        time_boot_ms: u32,
        lat_int: i32,
        lon_int: i32,
        alt: u32,
        vx: u32,
        vy: u32,
        vz: u32,
        afx: u32,
        afy: u32,
        afz: u32,
        yaw: u32,
        yaw_rate: u32,
    },
    MissionCount { target_system: u8, target_component: u8, count: u16 },
    MissionItemInt {
        target_system: u8,
        target_component: u8,
        seq: u16,
        frame: MavFrame,
        command: MavCmd,
        current: u8,
        autocontinue: u8,
        param1: u32,
        param2: u32,
        param3: u32,
        param4: u32,
        x: i32,
        y: i32,
        z: u32,
    },
    RequestDataStream {
        target_system: u8,
        target_component: u8,
        req_stream_id: u8,
        req_message_rate: u16,
        start_stop: u8,
    },
    ParamSet {
        target_system: u8,
        target_component: u8,
        param_id: Seq<u8>,
        param_value: u32,
        param_type: MavParamType,
    },
    ParamRequestRead { target_system: u8, target_component: u8, param_id: Seq<u8>, param_index: i16 },
}

impl View for OutboundMessage {
    type V = OutboundView;

    open spec fn view(&self) -> OutboundView {
        match *self {
            OutboundMessage::Heartbeat {
                custom_mode,
                mavtype,
                autopilot,
                base_mode,
                system_status,
                mavlink_version,
            } => OutboundView::Heartbeat {
                custom_mode,
                mavtype,
                autopilot,
                base_mode,
                system_status,
                mavlink_version,
            },
            OutboundMessage::CommandLong {
                target_system,
                target_component,
                command,
                confirmation,
                param1,
                param2,
                param3,
                param4,
                param5,
                param6,
                param7,
            } => OutboundView::CommandLong {
                target_system,
                target_component,
                command,
                confirmation,
                param1,
                param2,
                param3,
                param4,
                param5,
                param6,
                param7,
            },
            OutboundMessage::SetMode { target_system, base_mode, custom_mode } =>
                OutboundView::SetMode { target_system, base_mode, custom_mode },
            OutboundMessage::RcChannelsOverride { target_system, target_component, channels } =>
                OutboundView::RcChannelsOverride { target_system, target_component, channels },
            OutboundMessage::SetPositionTargetGlobalInt {
                target_system,
                target_component,
                coordinate_frame,
                type_mask,
                time_boot_ms,
                lat_int,
                lon_int,
                alt,
                vx,
                vy,
                vz,
                afx,
                afy,
                afz,
                yaw,
                yaw_rate,
            } => OutboundView::SetPositionTargetGlobalInt {
                target_system,
                target_component,
                coordinate_frame,
                type_mask,
                time_boot_ms,
                lat_int,
                lon_int,
                alt,
                vx,
                vy,
                vz,
                afx,
                afy,
                afz,
                yaw,
                yaw_rate,
            },
            OutboundMessage::MissionCount { target_system, target_component, count } =>
                OutboundView::MissionCount { target_system, target_component, count },
            OutboundMessage::MissionItemInt {
                target_system,
                target_component,
                seq,
                frame,
                command,
                current,
                autocontinue,
                param1,
                param2,
                param3,
                param4,
                x,
                y,
                z,
            } => OutboundView::MissionItemInt {
                target_system,
                target_component,
                seq,
                frame,
                command,
                current,
                autocontinue,
                param1,
                param2,
                param3,
                param4,
                x,
                y,
                z,
            },
            OutboundMessage::RequestDataStream {
                target_system,
                target_component,
                req_stream_id,
                req_message_rate,
                start_stop,
            } => OutboundView::RequestDataStream {
                target_system,
                target_component,
                req_stream_id,
                req_message_rate,
                start_stop,
            },
            OutboundMessage::ParamSet {
                target_system,
                target_component,
                ref param_id,
                param_value,
                param_type,
            } => OutboundView::ParamSet {
                target_system,
                target_component,
                param_id: param_id@,
                param_value,
                param_type,
            },
            OutboundMessage::ParamRequestRead {
                target_system,
                target_component,
                ref param_id,
                param_index,
            } => OutboundView::ParamRequestRead {
                target_system,
                target_component,
                param_id: param_id@,
                param_index,
            },
        }
    }
}

/// Whether a heartbeat's base mode says that the vehicle is armed.
pub open spec fn mode_flags_armed(base_mode: u8) -> bool {
    base_mode & MODE_FLAG_SAFETY_ARMED != 0
}

/// A heartbeat reads as armed exactly when the SAFETY_ARMED bit (128) of
/// its base mode is set, whatever the other flags are.
pub proof fn lemma_armed_is_top_bit(base_mode: u8)
    ensures
        mode_flags_armed(base_mode) == (base_mode >= 128),
        forall|m: u8| m < 128 ==> #[trigger] mode_flags_armed(base_mode | m) == mode_flags_armed(base_mode),
{
    assert((base_mode & 128u8 != 0) == (base_mode >= 128)) by (bit_vector);
    assert forall|m: u8| m < 128 implies #[trigger] mode_flags_armed(base_mode | m) == mode_flags_armed(base_mode) by {
        assert(m < 128 ==> (((base_mode | m) & 128u8 != 0) == (base_mode & 128u8 != 0))) by (bit_vector);
    }
}

/// Whether a heartbeat's base mode says that the vehicle is armed.
pub fn is_armed(base_mode: u8) -> (res: bool)
    ensures
        res == mode_flags_armed(base_mode),
{
    base_mode & MODE_FLAG_SAFETY_ARMED != 0
}

/// `s` without its trailing zero bytes.
pub open spec fn trim_zeros(s: Seq<u8>) -> Seq<u8>
    decreases s.len(),
{
    if s.len() > 0 && s.last() == 0 {
        trim_zeros(s.drop_last())
    } else {
        s
    }
}

/// A fixed-size MAVLink text field of `n` bytes holding `s`: its first `n`
/// bytes, padded with zero bytes.
pub open spec fn padded_field(s: Seq<u8>, n: nat) -> Seq<u8> {
    Seq::new(n, |i: int| if i < s.len() { s[i] } else { 0u8 })
}

/// The text that `String::from_utf8_lossy` makes of a byte string.
pub uninterp spec fn utf8_lossy(bytes: Seq<u8>) -> Seq<char>;

/// Calls `String::from_utf8_lossy`. Its documentation states that it
/// decodes valid UTF-8 as it is and replaces each invalid sequence with
/// U+FFFD, so the text is empty exactly when the bytes are; which characters
/// stand for invalid input is left to the name `utf8_lossy`.
#[verifier::external_body]
pub(crate) fn string_from_utf8_lossy(bytes: &[u8]) -> (res: String)
    ensures
        res@ == utf8_lossy(bytes@),
        valid_utf8(bytes@) ==> res@ == decode_utf8(bytes@),
        (res@.len() == 0) == (bytes@.len() == 0),
{
    String::from_utf8_lossy(bytes).into_owned()
}

proof fn lemma_trim_zeros_prefix(s: Seq<u8>)
    ensures
        trim_zeros(s).len() <= s.len(),
        trim_zeros(s) == s.take(trim_zeros(s).len() as int),
        trim_zeros(s).len() > 0 ==> trim_zeros(s).last() != 0,
        forall|i: int| trim_zeros(s).len() <= i < s.len() ==> s[i] == 0,
    decreases s.len(),
{
    if s.len() > 0 && s.last() == 0 {
        lemma_trim_zeros_prefix(s.drop_last());
        let t = trim_zeros(s.drop_last());
        assert(t == s.drop_last().take(t.len() as int));
        assert(s.drop_last().take(t.len() as int) =~= s.take(t.len() as int));
        assert forall|i: int| t.len() <= i < s.len() implies s[i] == 0 by {
            if i < s.len() - 1 {
                assert(s[i] == s.drop_last()[i]);
            }
        }
    } else {
        assert(s.take(s.len() as int) =~= s);
    }
}

/// The bytes of a NUL-padded text field up to its trailing zero bytes.
pub fn trimmed_bytes(bytes: &[u8]) -> (res: Vec<u8>)
    ensures
        res@ == trim_zeros(bytes@),
{
    let mut n = bytes.len();
    proof {
        lemma_trim_zeros_prefix(bytes@);
        assert(bytes@.take(n as int) =~= bytes@);
    }
    while n > 0 && bytes[n - 1] == 0
        invariant
            n <= bytes@.len(),
            trim_zeros(bytes@.take(n as int)) == trim_zeros(bytes@),
        decreases n,
    {
        assert(bytes@.take(n as int).drop_last() =~= bytes@.take(n - 1));
        n = n - 1;
    }
    assert(trim_zeros(bytes@.take(n as int)) == bytes@.take(n as int));
    let mut res: Vec<u8> = Vec::new();
    let mut i: usize = 0;
    while i < n
        invariant
            n <= bytes@.len(),
            i <= n,
            res@ == bytes@.take(i as int),
        decreases n - i,
    {
        res.push(bytes[i]);
        assert(res@ =~= bytes@.take(i + 1));
        i = i + 1;
    }
    res
}

/// The text of a NUL-padded MAVLink text field: its bytes up to the trailing
/// zero bytes, decoded as UTF-8 with invalid sequences replaced.
pub open spec fn field_text(bytes: Seq<u8>) -> Seq<char> {
    utf8_lossy(trim_zeros(bytes))
}

/// The text of a NUL-padded MAVLink text field.
pub fn text_of_field(bytes: &[u8]) -> (res: String)
    ensures
        res@ == field_text(bytes@),
        (res@.len() == 0) == (trim_zeros(bytes@).len() == 0),
{
    let trimmed = trimmed_bytes(bytes);
    string_from_utf8_lossy(trimmed.as_slice())
}

/// A text as a zero-padded MAVLink field of 16 bytes.
pub fn param_id_field(id: &str) -> (res: Vec<u8>)
    ensures
        res@ == padded_field(id.spec_bytes(), 16),
{
    let bytes = id.as_bytes();
    let mut res: Vec<u8> = Vec::new();
    let mut i: usize = 0;
    while i < 16
        invariant
            bytes@ == id.spec_bytes(),
            i <= 16,
            res@ == padded_field(bytes@, 16).take(i as int),
        decreases 16 - i,
    {
        let b = if i < bytes.len() {
            bytes[i]
        } else {
            0u8
        };
        res.push(b);
        assert(res@ =~= padded_field(bytes@, 16).take(i + 1));
        i = i + 1;
    }
    assert(res@ =~= padded_field(bytes@, 16));
    res
}

} // verus!
