use vstd::prelude::*;

verus! {

/// Telemetry rates and heartbeat timing.
#[derive(Debug, Clone, Copy, PartialEq, Eq, Structural)]
pub struct TelemetryConfig {
    /// Data stream request rate in Hz.
    pub stream_rate_hz: u16,
    /// Heartbeat timeout in ms.
    pub heartbeat_timeout_ms: u64,
    /// Heartbeat send interval in ms.
    pub heartbeat_interval_ms: u64,
}

impl Default for TelemetryConfig {
    /// Streams at 10 Hz, a 3 s heartbeat timeout and a heartbeat every second.
    fn default() -> (res: TelemetryConfig)
        ensures
            res == (TelemetryConfig {
                stream_rate_hz: 10,
                heartbeat_timeout_ms: 3000,
                heartbeat_interval_ms: 1000,
            }),
    {
        TelemetryConfig { stream_rate_hz: 10, heartbeat_timeout_ms: 3000, heartbeat_interval_ms: 1000 }
    }
}

/// Window and map settings.
#[derive(Debug, Clone)]
pub struct UiConfig {
    /// Window width in pixels.
    pub width: u32,
    /// Window height in pixels.
    pub height: u32,
    /// Dark mode.
    pub dark_mode: bool,
    /// Map tile server URL template.
    pub map_tile_url: String,
}

impl Default for UiConfig {
    /// A 1280x800 dark window with OpenStreetMap tiles.
    fn default() -> (res: UiConfig)
        ensures
            res.width == 1280,
            res.height == 800,
            res.dark_mode,
            res.map_tile_url@ == "https://tile.openstreetmap.org/{z}/{x}/{y}.png"@,
    {
        UiConfig {
            width: 1280,
            height: 800,
            dark_mode: true,
            map_tile_url: "https://tile.openstreetmap.org/{z}/{x}/{y}.png".to_owned(),
        }
    }
}

} // verus!
