use vstd::prelude::*;
use vstd::string::*;

use crate::text::{decimal, decimal_string};
use crate::types::ConnectionType;

verus! {

/// A waypoint of a mission, as the station uploads it.
///
/// Coordinates are in degrees scaled by 10^7; `param1`..`param4` and `alt`
/// are the IEEE-754 bit patterns of the single-precision values.
#[derive(Debug, Clone, Copy, PartialEq, Eq, Structural)]
pub struct Waypoint {
    pub seq: u16,
    pub frame: u8,
    pub command: u16,
    pub current: u8,
    pub autocontinue: u8,
    pub param1: u32,
    pub param2: u32,
    pub param3: u32,
    pub param4: u32,
    pub lat_e7: i32,
    pub lon_e7: i32,
    pub alt: u32,
}

/// Commands that the station sends to the vehicle.
#[derive(Debug, Clone)]
pub enum GcsCommand {
    /// Arm or disarm the motors.
    Arm(bool),
    /// Set the flight mode (ArduPlane custom mode number).
    SetMode(u32),
    /// Upload a mission.
    UploadMission(Vec<Waypoint>),
    /// Start the uploaded mission.
    StartMission,
    /// Pause the current mission.
    PauseMission,
    /// Resume a paused mission.
    ResumeMission,
    /// Return to the launch point.
    ReturnToLaunch,
    /// Fly to a position in guided mode: degrees scaled by 10^7, and the
    /// bit pattern of the single-precision altitude in meters.
    GuidedGoto { lat_e7: i32, lon_e7: i32, alt: u32 },
    /// Override the RC channels (joystick control).
    RcOverride { channels: [u16; 8] },
    /// Request a data stream at a rate in Hz.
    RequestDataStream { stream_id: u8, rate_hz: u16 },
    /// Set an ArduPilot parameter to a value (bit pattern of an `f32`).
    SetParam { param_id: String, value: u32 },
    /// Request the value of a parameter.
    GetParam { param_id: String },
    /// Trigger the camera shutter.
    CameraTrigger,
    /// Reboot the flight controller.
    Reboot,
}

/// Reasons for a failsafe.
#[derive(Debug, Clone, Copy, PartialEq, Eq, Structural)]
pub enum FailsafeReason {
    RcLost,
    GcsLost,
    BatteryLow,
    BatteryCritical,
    GpsLost,
    GeofenceBreach,
}

/// The name under which a failsafe reason is shown.
pub open spec fn failsafe_name(r: FailsafeReason) -> Seq<char> {
    match r {
        FailsafeReason::RcLost => "RcLost"@,
        FailsafeReason::GcsLost => "GcsLost"@,
        FailsafeReason::BatteryLow => "BatteryLow"@,
        FailsafeReason::BatteryCritical => "BatteryCritical"@,
        FailsafeReason::GpsLost => "GpsLost"@,
        FailsafeReason::GeofenceBreach => "GeofenceBreach"@,
    }
}

impl FailsafeReason {
    /// The name under which the reason is shown.
    pub fn name(&self) -> (res: &'static str)
        ensures
            res@ == failsafe_name(*self),
    {
        match self {
            FailsafeReason::RcLost => "RcLost",
            FailsafeReason::GcsLost => "GcsLost",
            FailsafeReason::BatteryLow => "BatteryLow",
            FailsafeReason::BatteryCritical => "BatteryCritical",
            FailsafeReason::GpsLost => "GpsLost",
            FailsafeReason::GeofenceBreach => "GeofenceBreach",
        }
    }
}

/// Events that the vehicle link reports.
#[derive(Debug, Clone)]
pub enum VehicleEvent {
    /// The link was established.
    Connected { connection: ConnectionType, system_id: u8, component_id: u8 },
    /// The link was closed.
    Disconnected { reason: String },
    /// No heartbeat from the flight controller for too long.
    HeartbeatTimeout { last_seen_ms: u64 },
    /// A status text from the flight controller.
    StatusText { severity: u8, text: String },
    /// A mission acknowledgement.
    MissionAck { result: u8 },
    /// A parameter value; `value` is the bit pattern of the `f32`.
    ParamValue { param_id: String, value: u32, param_type: u8, param_count: u16, param_index: u16 },
    /// A failsafe was triggered.
    Failsafe { reason: FailsafeReason },
    /// The vehicle was armed or disarmed.
    ArmStateChanged { armed: bool },
    /// The flight mode changed (ArduPlane custom mode number).
    ModeChanged { mode: u32 },
}

/// Errors of the vehicle link.
#[derive(Debug)]
pub enum ProtocolError {
    ConnectionFailed(String),
    HeartbeatTimeout(u64),
    InvalidMessage(String),
    SerialError(String),
    CommandRejected(String),
    MissionUploadFailed(String),
    Timeout(String),
}

/// The text with which an error is reported.
pub open spec fn protocol_error_text(e: ProtocolError) -> Seq<char> {
    match e {
        ProtocolError::ConnectionFailed(s) => "Connection failed: "@ + s@,
        ProtocolError::HeartbeatTimeout(ms) => "Heartbeat timeout after "@ + decimal(ms as nat)
            + "ms"@,
        ProtocolError::InvalidMessage(s) => "Invalid message: "@ + s@,
        ProtocolError::SerialError(s) => "Serial port error: "@ + s@,
        ProtocolError::CommandRejected(s) => "Command rejected: "@ + s@,
        ProtocolError::MissionUploadFailed(s) => "Mission upload failed: "@ + s@,
        ProtocolError::Timeout(s) => "Timeout: "@ + s@,
    }
}

impl ProtocolError {
    /// The text with which the error is reported.
    pub fn message(&self) -> (res: String)
        ensures
            res@ == protocol_error_text(*self),
    {
        let (prefix, detail): (&str, &str) = match self {
            ProtocolError::ConnectionFailed(s) => ("Connection failed: ", s.as_str()),
            ProtocolError::HeartbeatTimeout(ms) => {
                let mut text = "Heartbeat timeout after ".to_owned();
                let digits = decimal_string(*ms);
                text.append(digits.as_str());
                text.append("ms");
                return text;
            },
            ProtocolError::InvalidMessage(s) => ("Invalid message: ", s.as_str()),
            ProtocolError::SerialError(s) => ("Serial port error: ", s.as_str()),
            ProtocolError::CommandRejected(s) => ("Command rejected: ", s.as_str()),
            ProtocolError::MissionUploadFailed(s) => ("Mission upload failed: ", s.as_str()),
            ProtocolError::Timeout(s) => ("Timeout: ", s.as_str()),
        };
        let mut text = prefix.to_owned();
        text.append(detail);
        text
    }
}

/// Commands from the user interface to the link task.
#[derive(Debug, Clone)]
pub enum UiCommand {
    /// Connect to a flight controller.
    Connect(ConnectionType),
    /// Disconnect from the flight controller.
    Disconnect,
    /// Send a command to the vehicle.
    SendCommand(GcsCommand),
}

/// Events from the link task to the user interface.
#[derive(Debug, Clone)]
pub enum BackendEvent {
    /// Connected.
    Connected,
    /// Disconnected, with the reason.
    Disconnected(String),
    /// An error occurred.
    Error(String),
    /// The telemetry was updated.
    TelemetryUpdated,
    /// An event of the vehicle.
    Vehicle(VehicleEvent),
}

/// Each link error is reported as its kind, a colon and its detail as it
/// came; a heartbeat timeout as "Heartbeat timeout after", the time in
/// decimal and "ms".
pub proof fn lemma_protocol_error_texts(s: String, ms: u64)
    ensures
        protocol_error_text(ProtocolError::ConnectionFailed(s)) == "Connection failed: "@ + s@,
        protocol_error_text(ProtocolError::HeartbeatTimeout(ms)) == "Heartbeat timeout after "@
            + decimal(ms as nat) + "ms"@,
        protocol_error_text(ProtocolError::InvalidMessage(s)) == "Invalid message: "@ + s@,
        protocol_error_text(ProtocolError::SerialError(s)) == "Serial port error: "@ + s@,
        protocol_error_text(ProtocolError::CommandRejected(s)) == "Command rejected: "@ + s@,
        protocol_error_text(ProtocolError::MissionUploadFailed(s)) == "Mission upload failed: "@
            + s@,
        protocol_error_text(ProtocolError::Timeout(s)) == "Timeout: "@ + s@,
{
}

} // verus!
