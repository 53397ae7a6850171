use vstd::prelude::*;

use crate::connection::message_events;
use crate::messages::VehicleEvent;
use crate::frames::{
    field_text, is_armed, mode_flags_armed, text_of_field, trim_zeros, InboundMessage,
};
use crate::types::{gps_fix_of_code, mode_of_code, ArmState, FlightMode, GpsFixType};

verus! {

/// A geographic position as MAVLink reports it: degrees scaled by 10^7 and
/// altitudes in millimeters.
#[derive(Debug, Clone, Copy, PartialEq, Eq, Structural)]
pub struct GeoPosition {
    pub lat_e7: i32,
    pub lon_e7: i32,
    /// Altitude above mean sea level.
    pub alt_msl_mm: i32,
    /// Altitude above the ground (above home).
    pub alt_agl_mm: i32,
}

/// Attitude as MAVLink reports it: the bit patterns of single-precision
/// angles in radians and rates in radians per second.
#[derive(Debug, Clone, Copy, PartialEq, Eq, Structural)]
pub struct Attitude {
    pub roll: u32,
    pub pitch: u32,
    pub yaw: u32,
    pub roll_speed: u32,
    pub pitch_speed: u32,
    pub yaw_speed: u32,
}

/// Battery state as MAVLink reports it.
#[derive(Debug, Clone, Copy, PartialEq, Eq, Structural)]
pub struct BatteryStatus {
    /// Voltage in millivolts.
    pub voltage_mv: u16,
    /// Current in centiamperes.
    pub current_ca: i16,
    /// Remaining capacity in percent (-1 when unknown).
    pub remaining_pct: i8,
    /// Charge consumed in mAh.
    pub mah_consumed: u32,
}

/// The last climb rate reported, by the message that reported it.
#[derive(Debug, Clone, Copy, PartialEq, Eq, Structural)]
pub enum ClimbRate {
    /// Vertical speed in cm/s, positive down (`GLOBAL_POSITION_INT`).
    VerticalSpeed(i16),
    /// Climb rate in m/s, positive up, as a single-precision bit pattern (`VFR_HUD`).
    Measured(u32),
}

/// The telemetry state of the vehicle.
#[derive(Debug, Clone)]
pub struct TelemetryData {
    /// Time of the last update (ms since boot).
    pub timestamp_ms: u64,
    pub attitude: Attitude,
    pub position: GeoPosition,
    pub home_position: Option<GeoPosition>,
    /// Ground speed (bit pattern of m/s).
    pub ground_speed: u32,
    /// Airspeed (bit pattern of m/s).
    pub airspeed: u32,
    pub climb_rate: ClimbRate,
    /// Heading in degrees.
    pub heading: u16,
    /// Index of the active waypoint.
    pub current_wp: u16,
    /// Distance to the active waypoint in meters.
    pub distance_to_wp: u16,
    pub flight_mode: FlightMode,
    pub arm_state: ArmState,
    pub battery: BatteryStatus,
    pub gps_fix: GpsFixType,
    pub gps_satellites: u8,
    /// Horizontal dilution of precision, scaled by 100.
    pub gps_hdop: u16,
    /// RC signal strength (0-255).
    pub rssi: u8,
    /// Raw RC channel values (PWM).
    pub rc_channels: Vec<u16>,
    /// The last status text.
    pub status_text: Option<String>,
    /// Whether heartbeats are arriving.
    pub heartbeat_ok: bool,
    /// Time since the last heartbeat in ms.
    pub last_heartbeat_ms: u64,
    /// Messages received in this session.
    pub messages_received: u64,
}

/// The telemetry state with its text and channel fields as sequences.
pub struct TelemetrySnapshot {
    pub timestamp_ms: u64,
    pub attitude: Attitude,
    pub position: GeoPosition,
    pub home_position: Option<GeoPosition>,
    pub ground_speed: u32,
    pub airspeed: u32,
    pub climb_rate: ClimbRate,
    pub heading: u16,
    pub current_wp: u16,
    pub distance_to_wp: u16,
    pub flight_mode: FlightMode,
    pub arm_state: ArmState,
    pub battery: BatteryStatus,
    pub gps_fix: GpsFixType,
    pub gps_satellites: u8,
    pub gps_hdop: u16,
    pub rssi: u8,
    pub rc_channels: Seq<u16>,
    pub status_text: Option<Seq<char>>,
    pub heartbeat_ok: bool,
    pub last_heartbeat_ms: u64,
    pub messages_received: u64,
}

impl View for TelemetryData {
    type V = TelemetrySnapshot;

    open spec fn view(&self) -> TelemetrySnapshot {
        TelemetrySnapshot {
            timestamp_ms: self.timestamp_ms,
            attitude: self.attitude,
            position: self.position,
            home_position: self.home_position,
            ground_speed: self.ground_speed,
            airspeed: self.airspeed,
            climb_rate: self.climb_rate,
            heading: self.heading,
            current_wp: self.current_wp,
            distance_to_wp: self.distance_to_wp,
            flight_mode: self.flight_mode,
            arm_state: self.arm_state,
            battery: self.battery,
            gps_fix: self.gps_fix,
            gps_satellites: self.gps_satellites,
            gps_hdop: self.gps_hdop,
            rssi: self.rssi,
            rc_channels: self.rc_channels@,
            status_text: match self.status_text {
                Some(t) => Some(t@),
                None => None,
            },
            heartbeat_ok: self.heartbeat_ok,
            last_heartbeat_ms: self.last_heartbeat_ms,
            messages_received: self.messages_received,
        }
    }
}

/// The state before any message: manual mode, disarmed, no GPS, no home,
/// every number zero.
pub open spec fn initial_telemetry() -> TelemetrySnapshot {
    TelemetrySnapshot {
        timestamp_ms: 0,
        attitude: Attitude {
            roll: 0,
            pitch: 0,
            yaw: 0,
            roll_speed: 0,
            pitch_speed: 0,
            yaw_speed: 0,
        },
        position: GeoPosition { lat_e7: 0, lon_e7: 0, alt_msl_mm: 0, alt_agl_mm: 0 },
        home_position: None,
        ground_speed: 0,
        airspeed: 0,
        climb_rate: ClimbRate::VerticalSpeed(0),
        heading: 0,
        current_wp: 0,
        distance_to_wp: 0,
        flight_mode: FlightMode::Manual,
        arm_state: ArmState::Disarmed,
        battery: BatteryStatus { voltage_mv: 0, current_ca: 0, remaining_pct: 0, mah_consumed: 0 },
        gps_fix: GpsFixType::NoGps,
        gps_satellites: 0,
        gps_hdop: 0,
        rssi: 0,
        rc_channels: Seq::empty(),
        status_text: None,
        heartbeat_ok: false,
        last_heartbeat_ms: 0,
        messages_received: 0,
    }
}

/// The state after one message: the message is counted, and the fields that
/// it reports are taken from it.
pub open spec fn apply_message(t: TelemetrySnapshot, msg: InboundMessage) -> TelemetrySnapshot {
    let t = TelemetrySnapshot { messages_received: (t.messages_received + 1) as u64, ..t };
    match msg {
        InboundMessage::Heartbeat { custom_mode, base_mode } => TelemetrySnapshot {
            heartbeat_ok: true,
            last_heartbeat_ms: 0,
            flight_mode: mode_of_code(custom_mode),
            arm_state: if mode_flags_armed(base_mode) {
                ArmState::Armed
            } else {
                ArmState::Disarmed
            },
            ..t
        },
        InboundMessage::Attitude { roll, pitch, yaw, rollspeed, pitchspeed, yawspeed } =>
            TelemetrySnapshot {
            attitude: Attitude {
                roll,
                pitch,
                yaw,
                roll_speed: rollspeed,
                pitch_speed: pitchspeed,
                yaw_speed: yawspeed,
            },
            ..t
        },
        InboundMessage::GlobalPositionInt { lat, lon, alt, relative_alt, vz, hdg } =>
            TelemetrySnapshot {
            position: GeoPosition {
                lat_e7: lat,
                lon_e7: lon,
                alt_msl_mm: alt,
                alt_agl_mm: relative_alt,
            },
            heading: (hdg / 100) as u16,
            climb_rate: ClimbRate::VerticalSpeed(vz),
            ..t
        },
        InboundMessage::GpsRawInt { fix_type, satellites_visible, eph } => TelemetrySnapshot {
            gps_fix: gps_fix_of_code(fix_type),
            gps_satellites: satellites_visible,
            gps_hdop: eph,
            ..t
        },
        InboundMessage::VfrHud { airspeed, groundspeed, heading, climb } => TelemetrySnapshot {
            airspeed,
            ground_speed: groundspeed,
            heading: heading as u16,
            climb_rate: ClimbRate::Measured(climb),
            ..t
        },
        InboundMessage::SysStatus { voltage_battery, current_battery, battery_remaining } =>
            TelemetrySnapshot {
            battery: BatteryStatus {
                voltage_mv: voltage_battery,
                current_ca: current_battery,
                remaining_pct: battery_remaining,
                mah_consumed: 0,
            },
            ..t
        },
        InboundMessage::BatteryStatus { current_consumed, battery_remaining } => TelemetrySnapshot {
            battery: BatteryStatus {
                mah_consumed: current_consumed as u32,
                remaining_pct: if battery_remaining >= 0 {
                    battery_remaining
                } else {
                    t.battery.remaining_pct
                },
                ..t.battery
            },
            ..t
        },
        InboundMessage::RcChannels { rssi, channels } => TelemetrySnapshot {
            rssi,
            rc_channels: channels@,
            ..t
        },
        InboundMessage::HomePosition { latitude, longitude, altitude } => TelemetrySnapshot {
            home_position: Some(
                GeoPosition { lat_e7: latitude, lon_e7: longitude, alt_msl_mm: altitude, alt_agl_mm: 0 },
            ),
            ..t
        },
        InboundMessage::MissionCurrent { seq } => TelemetrySnapshot { current_wp: seq, ..t },
        InboundMessage::NavControllerOutput { wp_dist } => TelemetrySnapshot {
            distance_to_wp: wp_dist,
            ..t
        },
        InboundMessage::StatusText { text, .. } => if trim_zeros(text@).len() > 0 {
            TelemetrySnapshot { status_text: Some(field_text(text@)), ..t }
        } else {
            t
        },
        _ => t,
    }
}

/// The state after some time without a heartbeat: the time is added to the
/// time since the last heartbeat, and past 3000 ms heartbeats count as lost.
pub open spec fn apply_heartbeat_tick(t: TelemetrySnapshot, elapsed_ms: u64) -> TelemetrySnapshot {
    let since = (t.last_heartbeat_ms + elapsed_ms) as u64;
    TelemetrySnapshot {
        last_heartbeat_ms: since,
        heartbeat_ok: if since > HEARTBEAT_LOST_MS {
            false
        } else {
            t.heartbeat_ok
        },
        ..t
    }
}

/// Time without heartbeat after which heartbeats count as lost, in ms.
pub const HEARTBEAT_LOST_MS: u64 = 3000;

impl TelemetryData {
    /// The state before any message.
    pub fn new() -> (res: TelemetryData)
        ensures
            res@ == initial_telemetry(),
    {
        let res = TelemetryData {
            timestamp_ms: 0,
            attitude: Attitude {
                roll: 0,
                pitch: 0,
                yaw: 0,
                roll_speed: 0,
                pitch_speed: 0,
                yaw_speed: 0,
            },
            position: GeoPosition { lat_e7: 0, lon_e7: 0, alt_msl_mm: 0, alt_agl_mm: 0 },
            home_position: None,
            ground_speed: 0,
            airspeed: 0,
            climb_rate: ClimbRate::VerticalSpeed(0),
            heading: 0,
            current_wp: 0,
            distance_to_wp: 0,
            flight_mode: FlightMode::Manual,
            arm_state: ArmState::Disarmed,
            battery: BatteryStatus { voltage_mv: 0, current_ca: 0, remaining_pct: 0, mah_consumed: 0 },
            gps_fix: GpsFixType::NoGps,
            gps_satellites: 0,
            gps_hdop: 0,
            rssi: 0,
            rc_channels: Vec::new(),
            status_text: None,
            heartbeat_ok: false,
            last_heartbeat_ms: 0,
            messages_received: 0,
        };
        assert(res@.rc_channels =~= Seq::<u16>::empty());
        res
    }

    /// Keep a decoded status text as the last one, unless it is empty.
    pub fn set_status_text(&mut self, text: String)
        ensures
            final(self)@ == (if text@.len() > 0 {
                TelemetrySnapshot { status_text: Some(text@), ..old(self)@ }
            } else {
                old(self)@
            }),
    {
        if !text.as_str().is_empty() {
            self.status_text = Some(text);
        }
    }
}

/// Keeps the telemetry state up to date from the flight controller's messages.
pub struct TelemetryHandler {
    data: TelemetryData,
}

impl TelemetryHandler {
    pub closed spec fn state(&self) -> TelemetrySnapshot {
        self.data@
    }

    /// A handler with the state before any message.
    pub fn new() -> (res: TelemetryHandler)
        ensures
            res.state() == initial_telemetry(),
    {
        TelemetryHandler { data: TelemetryData::new() }
    }

    /// A handler that continues from a given state.
    pub fn with_data(data: TelemetryData) -> (res: TelemetryHandler)
        ensures
            res.state() == data@,
    {
        TelemetryHandler { data }
    }

    /// The current telemetry state.
    pub fn data(&self) -> (res: &TelemetryData)
        ensures
            res@ == self.state(),
    {
        &self.data
    }

    /// Update the state from a message. Returns whether the distance and
    /// bearing to home are due for recomputation: after a position report
    /// while a home position is known.
    pub fn process_message(&mut self, msg: &InboundMessage) -> (res: bool)
        requires
            old(self).state().messages_received < u64::MAX,
        ensures
            final(self).state() == apply_message(old(self).state(), *msg),
            res == (msg is GlobalPositionInt && final(self).state().home_position is Some),
    {
        let data = &mut self.data;
        data.messages_received = data.messages_received + 1;
        match msg {
            InboundMessage::Heartbeat { custom_mode, base_mode } => {
                data.heartbeat_ok = true;
                data.last_heartbeat_ms = 0;
                data.flight_mode = FlightMode::from_custom_mode(*custom_mode);
                data.arm_state = if is_armed(*base_mode) {
                    ArmState::Armed
                } else {
                    ArmState::Disarmed
                };
            },
            InboundMessage::Attitude { roll, pitch, yaw, rollspeed, pitchspeed, yawspeed } => {
                data.attitude = Attitude {
                    roll: *roll,
                    pitch: *pitch,
                    yaw: *yaw,
                    roll_speed: *rollspeed,
                    pitch_speed: *pitchspeed,
                    yaw_speed: *yawspeed,
                };
            },
            InboundMessage::GlobalPositionInt { lat, lon, alt, relative_alt, vz, hdg } => {
                data.position = GeoPosition {
                    lat_e7: *lat,
                    lon_e7: *lon,
                    alt_msl_mm: *alt,
                    alt_agl_mm: *relative_alt,
                };
                data.heading = *hdg / 100;
                data.climb_rate = ClimbRate::VerticalSpeed(*vz);
                return data.home_position.is_some();
            },
            InboundMessage::GpsRawInt { fix_type, satellites_visible, eph } => {
                data.gps_fix = GpsFixType::from(*fix_type);
                data.gps_satellites = *satellites_visible;
                data.gps_hdop = *eph;
            },
            InboundMessage::VfrHud { airspeed, groundspeed, heading, climb } => {
                data.airspeed = *airspeed;
                data.ground_speed = *groundspeed;
                data.heading = *heading as u16;
                data.climb_rate = ClimbRate::Measured(*climb);
            },
            InboundMessage::SysStatus { voltage_battery, current_battery, battery_remaining } => {
                data.battery = BatteryStatus {
                    voltage_mv: *voltage_battery,
                    current_ca: *current_battery,
                    remaining_pct: *battery_remaining,
                    mah_consumed: 0,
                };
            },
            InboundMessage::BatteryStatus { current_consumed, battery_remaining } => {
                data.battery.mah_consumed = *current_consumed as u32;
                if *battery_remaining >= 0 {
                    data.battery.remaining_pct = *battery_remaining;
                }
            },
            InboundMessage::RcChannels { rssi, channels } => {
                data.rssi = *rssi;
                let mut rc: Vec<u16> = Vec::new();
                let mut i: usize = 0;
                while i < 8
                    invariant
                        i <= 8,
                        rc@ == channels@.take(i as int),
                    decreases 8 - i,
                {
                    rc.push(channels[i]);
                    assert(rc@ =~= channels@.take(i + 1));
                    i = i + 1;
                }
                assert(channels@.take(8) =~= channels@);
                data.rc_channels = rc;
            },
            InboundMessage::HomePosition { latitude, longitude, altitude } => {
                data.home_position = Some(
                    GeoPosition {
                        lat_e7: *latitude,
                        lon_e7: *longitude,
                        alt_msl_mm: *altitude,
                        alt_agl_mm: 0,
                    },
                );
            },
            InboundMessage::MissionCurrent { seq } => {
                data.current_wp = *seq;
            },
            InboundMessage::NavControllerOutput { wp_dist } => {
                data.distance_to_wp = *wp_dist;
            },
            InboundMessage::StatusText { text, .. } => {
                let decoded = text_of_field(text.as_slice());
                data.set_status_text(decoded);
            },
            _ => {},
        }
        false
    }

    /// Account for time without a heartbeat; past 3000 ms heartbeats count as lost.
    pub fn tick_heartbeat(&mut self, elapsed_ms: u64)
        requires
            old(self).state().last_heartbeat_ms + elapsed_ms <= u64::MAX,
        ensures
            final(self).state() == apply_heartbeat_tick(old(self).state(), elapsed_ms),
    {
        self.data.last_heartbeat_ms = self.data.last_heartbeat_ms + elapsed_ms;
        if self.data.last_heartbeat_ms > HEARTBEAT_LOST_MS {
            self.data.heartbeat_ok = false;
        }
    }
}

impl Default for TelemetryHandler {
    fn default() -> (res: TelemetryHandler)
        ensures
            res.state() == initial_telemetry(),
    {
        TelemetryHandler::new()
    }
}


/// A heartbeat restores the link health that silence took away: after any
/// run of ticks, a heartbeat leaves heartbeats counted as arriving and the
/// silence reset.
pub proof fn lemma_heartbeat_restores_link(
    t: TelemetrySnapshot,
    elapsed_ms: u64,
    custom_mode: u32,
    base_mode: u8,
)
    requires
        t.last_heartbeat_ms + elapsed_ms <= u64::MAX,
    ensures
        ({
            let after = apply_message(
                apply_heartbeat_tick(t, elapsed_ms),
                InboundMessage::Heartbeat { custom_mode, base_mode },
            );
            after.heartbeat_ok && after.last_heartbeat_ms == 0
        }),
{
}

/// The events raised for the interface agree with the telemetry state: for
/// a heartbeat, the arm event says armed exactly when the state becomes
/// armed, and the mode event carries the number of the state's new mode.
pub proof fn lemma_heartbeat_events_match_telemetry(
    t: TelemetrySnapshot,
    custom_mode: u32,
    base_mode: u8,
    events: Seq<VehicleEvent>,
)
    requires
        message_events(InboundMessage::Heartbeat { custom_mode, base_mode }, events),
    ensures
        ({
            let after = apply_message(t, InboundMessage::Heartbeat { custom_mode, base_mode });
            &&& events[0] == VehicleEvent::ArmStateChanged { armed: after.arm_state == ArmState::Armed }
            &&& events[1] matches VehicleEvent::ModeChanged { mode } && mode_of_code(mode)
                == after.flight_mode
        }),
{
}

/// Every message is counted, whatever it is.
pub proof fn lemma_every_message_counted(t: TelemetrySnapshot, msg: InboundMessage)
    requires
        t.messages_received < u64::MAX,
    ensures
        apply_message(t, msg).messages_received == t.messages_received + 1,
{
}

/// A heartbeat tick only lengthens the silence and can only take link
/// health away, never give it: the time since the last heartbeat grows by
/// the elapsed time, heartbeats keep counting as arriving only if they did
/// and the silence is still at most 3000 ms, and nothing else changes.
pub proof fn lemma_tick_never_restores_heartbeat(t: TelemetrySnapshot, elapsed_ms: u64)
    requires
        t.last_heartbeat_ms + elapsed_ms <= u64::MAX,
    ensures
        apply_heartbeat_tick(t, elapsed_ms).last_heartbeat_ms == t.last_heartbeat_ms + elapsed_ms,
        apply_heartbeat_tick(t, elapsed_ms).heartbeat_ok ==> t.heartbeat_ok,
        apply_heartbeat_tick(t, elapsed_ms).heartbeat_ok <==> (t.heartbeat_ok
            && t.last_heartbeat_ms + elapsed_ms <= 3000),
        apply_heartbeat_tick(t, elapsed_ms) == (TelemetrySnapshot {
            last_heartbeat_ms: apply_heartbeat_tick(t, elapsed_ms).last_heartbeat_ms,
            heartbeat_ok: apply_heartbeat_tick(t, elapsed_ms).heartbeat_ok,
            ..t
        }),
{
}

/// Before any message no heartbeat has arrived, so heartbeats do not count
/// as arriving however much time passes.
pub proof fn lemma_no_heartbeat_before_first(elapsed_ms: u64)
    ensures
        !initial_telemetry().heartbeat_ok,
        !apply_heartbeat_tick(initial_telemetry(), elapsed_ms).heartbeat_ok,
        initial_telemetry().arm_state == ArmState::Disarmed,
        initial_telemetry().messages_received == 0,
{
}

/// Only a heartbeat makes heartbeats count as arriving, and only a
/// heartbeat changes the silence, the arm state or the flight mode.
pub proof fn lemma_only_heartbeat_touches_link_health(t: TelemetrySnapshot, msg: InboundMessage)
    requires
        !(msg is Heartbeat),
    ensures
        apply_message(t, msg).heartbeat_ok == t.heartbeat_ok,
        apply_message(t, msg).last_heartbeat_ms == t.last_heartbeat_ms,
        apply_message(t, msg).arm_state == t.arm_state,
        apply_message(t, msg).flight_mode == t.flight_mode,
{
}

/// A heartbeat counts as arriving, resets the silence, reads as armed
/// exactly when the SAFETY_ARMED bit (128) of its base mode is set whatever
/// the other flags, and sets the flight mode that its custom mode denotes.
pub proof fn lemma_heartbeat_message(t: TelemetrySnapshot, custom_mode: u32, base_mode: u8)
    ensures
        ({
            let after = apply_message(t, InboundMessage::Heartbeat { custom_mode, base_mode });
            &&& after.heartbeat_ok
            &&& after.last_heartbeat_ms == 0
            &&& (after.arm_state == ArmState::Armed) == (base_mode >= 128)
            &&& (after.arm_state == ArmState::Armed || after.arm_state == ArmState::Disarmed)
            &&& after.flight_mode == mode_of_code(custom_mode)
            &&& after.position == t.position
            &&& after.battery == t.battery
            &&& after.gps_fix == t.gps_fix
        }),
{
    crate::frames::lemma_armed_is_top_bit(base_mode);
}

/// Each report message sets the fields it reports from its own fields,
/// unit for unit, and leaves the others.
pub proof fn lemma_report_messages(t: TelemetrySnapshot, msg: InboundMessage)
    ensures
        match msg {
            InboundMessage::Attitude { roll, pitch, yaw, rollspeed, pitchspeed, yawspeed } => {
                let a = apply_message(t, msg).attitude;
                &&& a.roll == roll && a.pitch == pitch && a.yaw == yaw
                &&& a.roll_speed == rollspeed && a.pitch_speed == pitchspeed
                &&& a.yaw_speed == yawspeed
                &&& apply_message(t, msg).position == t.position
            },
            InboundMessage::GlobalPositionInt { lat, lon, alt, relative_alt, vz, hdg } => {
                let after = apply_message(t, msg);
                &&& after.position.lat_e7 == lat && after.position.lon_e7 == lon
                &&& after.position.alt_msl_mm == alt && after.position.alt_agl_mm == relative_alt
                &&& after.heading * 100 <= hdg < after.heading * 100 + 100
                &&& after.climb_rate == ClimbRate::VerticalSpeed(vz)
            },
            InboundMessage::GpsRawInt { fix_type, satellites_visible, eph } => {
                let after = apply_message(t, msg);
                &&& after.gps_fix == gps_fix_of_code(fix_type)
                &&& after.gps_satellites == satellites_visible
                &&& after.gps_hdop == eph
            },
            InboundMessage::VfrHud { airspeed, groundspeed, heading, climb } => {
                let after = apply_message(t, msg);
                &&& after.airspeed == airspeed && after.ground_speed == groundspeed
                &&& after.heading == heading as u16
                &&& after.climb_rate == ClimbRate::Measured(climb)
            },
            InboundMessage::SysStatus { voltage_battery, current_battery, battery_remaining } => {
                let b = apply_message(t, msg).battery;
                &&& b.voltage_mv == voltage_battery && b.current_ca == current_battery
                &&& b.remaining_pct == battery_remaining
            },
            InboundMessage::BatteryStatus { current_consumed, battery_remaining } => {
                let b = apply_message(t, msg).battery;
                &&& b.mah_consumed == current_consumed as u32
                &&& b.voltage_mv == t.battery.voltage_mv && b.current_ca == t.battery.current_ca
                &&& b.remaining_pct == (if battery_remaining < 0 {
                    t.battery.remaining_pct
                } else {
                    battery_remaining
                })
            },
            InboundMessage::RcChannels { rssi, channels } => {
                &&& apply_message(t, msg).rssi == rssi
                &&& apply_message(t, msg).rc_channels == channels@
            },
            InboundMessage::HomePosition { latitude, longitude, altitude } => apply_message(
                t,
                msg,
            ).home_position == Some(
                GeoPosition { lat_e7: latitude, lon_e7: longitude, alt_msl_mm: altitude, alt_agl_mm: 0 },
            ),
            InboundMessage::MissionCurrent { seq } => apply_message(t, msg).current_wp == seq,
            InboundMessage::NavControllerOutput { wp_dist } => apply_message(t, msg).distance_to_wp
                == wp_dist,
            _ => true,
        },
{
}

} // verus!
