use vstd::prelude::*;

verus! {

/// Flight modes of ArduPlane.
#[derive(Debug, Clone, Copy, PartialEq, Eq, Structural)]
pub enum FlightMode {
    Manual,
    Stabilize,
    FlyByWireA,
    FlyByWireB,
    Auto,
    Rtl,
    Loiter,
    Cruise,
    Guided,
    Circle,
    Unknown(u32),
}

/// The ArduPlane custom-mode numbers that have a named mode.
pub open spec fn is_named_mode_code(mode: u32) -> bool {
    mode == 0 || mode == 1 || mode == 2 || mode == 5 || mode == 6 || mode == 7 || mode == 10
        || mode == 11 || mode == 12 || mode == 15
}

/// The mode that an ArduPlane custom-mode number denotes.
pub open spec fn mode_of_code(mode: u32) -> FlightMode {
    if mode == 0 {
        FlightMode::Manual
    } else if mode == 1 {
        FlightMode::Circle
    } else if mode == 2 {
        FlightMode::Stabilize
    } else if mode == 5 {
        FlightMode::FlyByWireA
    } else if mode == 6 {
        FlightMode::FlyByWireB
    } else if mode == 7 {
        FlightMode::Cruise
    } else if mode == 10 {
        FlightMode::Auto
    } else if mode == 11 {
        FlightMode::Rtl
    } else if mode == 12 {
        FlightMode::Loiter
    } else if mode == 15 {
        FlightMode::Guided
    } else {
        FlightMode::Unknown(mode)
    }
}

/// The ArduPlane custom-mode number of a mode.
pub open spec fn code_of_mode(mode: FlightMode) -> u32 {
    match mode {
        FlightMode::Manual => 0,
        FlightMode::Stabilize => 2,
        FlightMode::FlyByWireA => 5,
        FlightMode::FlyByWireB => 6,
        FlightMode::Auto => 10,
        FlightMode::Rtl => 11,
        FlightMode::Loiter => 12,
        FlightMode::Cruise => 7,
        FlightMode::Guided => 15,
        FlightMode::Circle => 1,
        FlightMode::Unknown(m) => m,
    }
}

/// The display name of a mode.
pub open spec fn mode_name(mode: FlightMode) -> Seq<char> {
    match mode {
        FlightMode::Manual => "MANUAL"@,
        FlightMode::Stabilize => "STABILIZE"@,
        FlightMode::FlyByWireA => "FBWA"@,
        FlightMode::FlyByWireB => "FBWB"@,
        FlightMode::Auto => "AUTO"@,
        FlightMode::Rtl => "RTL"@,
        FlightMode::Loiter => "LOITER"@,
        FlightMode::Cruise => "CRUISE"@,
        FlightMode::Guided => "GUIDED"@,
        FlightMode::Circle => "CIRCLE"@,
        FlightMode::Unknown(_) => "UNKNOWN"@,
    }
}

impl FlightMode {
    /// Convert an ArduPlane custom mode number to a flight mode.
    pub fn from_custom_mode(mode: u32) -> (res: FlightMode)
        ensures
            res == mode_of_code(mode),
    {
        match mode {
            0 => FlightMode::Manual,
            2 => FlightMode::Stabilize,
            5 => FlightMode::FlyByWireA,
            6 => FlightMode::FlyByWireB,
            10 => FlightMode::Auto,
            11 => FlightMode::Rtl,
            12 => FlightMode::Loiter,
            7 => FlightMode::Cruise,
            15 => FlightMode::Guided,
            1 => FlightMode::Circle,
            other => FlightMode::Unknown(other),
        }
    }

    /// Convert a flight mode to its ArduPlane custom mode number.
    pub fn to_custom_mode(self) -> (res: u32)
        ensures
            res == code_of_mode(self),
    {
        match self {
            FlightMode::Manual => 0,
            FlightMode::Stabilize => 2,
            FlightMode::FlyByWireA => 5,
            FlightMode::FlyByWireB => 6,
            FlightMode::Auto => 10,
            FlightMode::Rtl => 11,
            FlightMode::Loiter => 12,
            FlightMode::Cruise => 7,
            FlightMode::Guided => 15,
            FlightMode::Circle => 1,
            FlightMode::Unknown(m) => m,
        }
    }

    /// The short display name of the mode.
    pub fn name(&self) -> (res: &'static str)
        ensures
            res@ == mode_name(*self),
    {
        match self {
            FlightMode::Manual => "MANUAL",
            FlightMode::Stabilize => "STABILIZE",
            FlightMode::FlyByWireA => "FBWA",
            FlightMode::FlyByWireB => "FBWB",
            FlightMode::Auto => "AUTO",
            FlightMode::Rtl => "RTL",
            FlightMode::Loiter => "LOITER",
            FlightMode::Cruise => "CRUISE",
            FlightMode::Guided => "GUIDED",
            FlightMode::Circle => "CIRCLE",
            FlightMode::Unknown(_) => "UNKNOWN",
        }
    }
}

impl Default for FlightMode {
    fn default() -> (res: FlightMode)
        ensures
            res == FlightMode::Manual,
    {
        FlightMode::Manual
    }
}

/// Every custom-mode number survives the trip through `FlightMode` unchanged.
pub proof fn lemma_custom_mode_round_trip(mode: u32)
    ensures
        code_of_mode(mode_of_code(mode)) == mode,
{
}

/// Every mode other than an `Unknown` that carries a named mode's number
/// survives the trip through its custom-mode number unchanged.
pub proof fn lemma_flight_mode_round_trip(mode: FlightMode)
    requires
        !(mode is Unknown && is_named_mode_code(mode->Unknown_0)),
    ensures
        mode_of_code(code_of_mode(mode)) == mode,
{
}


/// GPS fix type.
#[derive(Debug, Clone, Copy, PartialEq, Eq, Structural)]
pub enum GpsFixType {
    NoGps,
    NoFix,
    Fix2D,
    Fix3D,
    DGps,
    RtkFloat,
    RtkFixed,
    Unknown(u8),
}

/// The fix type that a MAVLink `GPS_FIX_TYPE` number denotes.
pub open spec fn gps_fix_of_code(val: u8) -> GpsFixType {
    if val == 0 {
        GpsFixType::NoGps
    } else if val == 1 {
        GpsFixType::NoFix
    } else if val == 2 {
        GpsFixType::Fix2D
    } else if val == 3 {
        GpsFixType::Fix3D
    } else if val == 4 {
        GpsFixType::DGps
    } else if val == 5 {
        GpsFixType::RtkFloat
    } else if val == 6 {
        GpsFixType::RtkFixed
    } else {
        GpsFixType::Unknown(val)
    }
}

impl From<u8> for GpsFixType {
    fn from(val: u8) -> (res: GpsFixType) {
        match val {
            0 => GpsFixType::NoGps,
            1 => GpsFixType::NoFix,
            2 => GpsFixType::Fix2D,
            3 => GpsFixType::Fix3D,
            4 => GpsFixType::DGps,
            5 => GpsFixType::RtkFloat,
            6 => GpsFixType::RtkFixed,
            other => GpsFixType::Unknown(other),
        }
    }
}

impl vstd::std_specs::convert::FromSpecImpl<u8> for GpsFixType {
    open spec fn obeys_from_spec() -> bool {
        true
    }

    open spec fn from_spec(val: u8) -> GpsFixType {
        gps_fix_of_code(val)
    }
}

impl Default for GpsFixType {
    fn default() -> (res: GpsFixType)
        ensures
            res == GpsFixType::NoGps,
    {
        GpsFixType::NoGps
    }
}

/// Arm state of the vehicle.
#[derive(Debug, Clone, Copy, PartialEq, Eq, Structural)]
pub enum ArmState {
    Disarmed,
    Armed,
}

impl Default for ArmState {
    fn default() -> (res: ArmState)
        ensures
            res == ArmState::Disarmed,
    {
        ArmState::Disarmed
    }
}

/// How the station reaches the flight controller.
#[derive(Debug)]
pub enum ConnectionType {
    /// Serial port (USB or telemetry radio).
    Serial { port: String, baud_rate: u32 },
    /// UDP endpoint (SITL or network telemetry).
    Udp { address: String, port: u16 },
    /// TCP endpoint.
    Tcp { address: String, port: u16 },
}

/// A connection setting with its text fields as character sequences.
pub enum ConnectionTypeView {
    Serial { port: Seq<char>, baud_rate: u32 },
    Udp { address: Seq<char>, port: u16 },
    Tcp { address: Seq<char>, port: u16 },
}

impl View for ConnectionType {
    type V = ConnectionTypeView;

    open spec fn view(&self) -> ConnectionTypeView {
        match self {
            ConnectionType::Serial { port, baud_rate } => ConnectionTypeView::Serial {
                port: port@,
                baud_rate: *baud_rate,
            },
            ConnectionType::Udp { address, port } => ConnectionTypeView::Udp {
                address: address@,
                port: *port,
            },
            ConnectionType::Tcp { address, port } => ConnectionTypeView::Tcp {
                address: address@,
                port: *port,
            },
        }
    }
}

impl Clone for ConnectionType {
    fn clone(&self) -> (res: ConnectionType)
        ensures
            res@ == self@,
    {
        match self {
            ConnectionType::Serial { port, baud_rate } => ConnectionType::Serial {
                port: port.clone(),
                baud_rate: *baud_rate,
            },
            ConnectionType::Udp { address, port } => ConnectionType::Udp {
                address: address.clone(),
                port: *port,
            },
            ConnectionType::Tcp { address, port } => ConnectionType::Tcp {
                address: address.clone(),
                port: *port,
            },
        }
    }
}

impl Default for ConnectionType {
    /// The local SITL endpoint, UDP 127.0.0.1:14550.
    fn default() -> (res: ConnectionType)
        ensures
            res@ == (ConnectionTypeView::Udp { address: "127.0.0.1"@, port: 14550 }),
    {
        ConnectionType::Udp { address: "127.0.0.1".to_owned(), port: 14550 }
    }
}

/// The ArduPlane custom-mode numbering: MANUAL 0, CIRCLE 1, STABILIZE 2,
/// FBWA 5, FBWB 6, CRUISE 7, AUTO 10, RTL 11, LOITER 12, GUIDED 15; any other
/// number is an unknown mode that keeps the number. Each mode shows under
/// its ArduPlane name.
pub proof fn lemma_arduplane_mode_numbers(other: u32)
    requires
        other != 0 && other != 1 && other != 2 && other != 5 && other != 6 && other != 7 && other
            != 10 && other != 11 && other != 12 && other != 15,
    ensures
        mode_of_code(0) == FlightMode::Manual && code_of_mode(FlightMode::Manual) == 0,
        mode_of_code(1) == FlightMode::Circle && code_of_mode(FlightMode::Circle) == 1,
        mode_of_code(2) == FlightMode::Stabilize && code_of_mode(FlightMode::Stabilize) == 2,
        mode_of_code(5) == FlightMode::FlyByWireA && code_of_mode(FlightMode::FlyByWireA) == 5,
        mode_of_code(6) == FlightMode::FlyByWireB && code_of_mode(FlightMode::FlyByWireB) == 6,
        mode_of_code(7) == FlightMode::Cruise && code_of_mode(FlightMode::Cruise) == 7,
        mode_of_code(10) == FlightMode::Auto && code_of_mode(FlightMode::Auto) == 10,
        mode_of_code(11) == FlightMode::Rtl && code_of_mode(FlightMode::Rtl) == 11,
        mode_of_code(12) == FlightMode::Loiter && code_of_mode(FlightMode::Loiter) == 12,
        mode_of_code(15) == FlightMode::Guided && code_of_mode(FlightMode::Guided) == 15,
        mode_of_code(other) == FlightMode::Unknown(other),
        code_of_mode(FlightMode::Unknown(other)) == other,
        mode_name(FlightMode::Manual) == "MANUAL"@,
        mode_name(FlightMode::Circle) == "CIRCLE"@,
        mode_name(FlightMode::Stabilize) == "STABILIZE"@,
        mode_name(FlightMode::FlyByWireA) == "FBWA"@,
        mode_name(FlightMode::FlyByWireB) == "FBWB"@,
        mode_name(FlightMode::Cruise) == "CRUISE"@,
        mode_name(FlightMode::Auto) == "AUTO"@,
        mode_name(FlightMode::Rtl) == "RTL"@,
        mode_name(FlightMode::Loiter) == "LOITER"@,
        mode_name(FlightMode::Guided) == "GUIDED"@,
        mode_name(FlightMode::Unknown(other)) == "UNKNOWN"@,
{
}

/// The MAVLink `GPS_FIX_TYPE` numbering: 0 no GPS, 1 no fix, 2 2D, 3 3D,
/// 4 DGPS, 5 RTK float, 6 RTK fixed; any other number is an unknown fix type
/// that keeps the number.
pub proof fn lemma_gps_fix_numbers(other: u8)
    requires
        other > 6,
    ensures
        gps_fix_of_code(0) == GpsFixType::NoGps,
        gps_fix_of_code(1) == GpsFixType::NoFix,
        gps_fix_of_code(2) == GpsFixType::Fix2D,
        gps_fix_of_code(3) == GpsFixType::Fix3D,
        gps_fix_of_code(4) == GpsFixType::DGps,
        gps_fix_of_code(5) == GpsFixType::RtkFloat,
        gps_fix_of_code(6) == GpsFixType::RtkFixed,
        gps_fix_of_code(other) == GpsFixType::Unknown(other),
{
}

} // verus!
