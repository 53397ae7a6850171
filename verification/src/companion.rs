use vstd::prelude::*;

verus! {

/// Commands from the station to the companion computer.
#[derive(Debug, Clone, Copy, PartialEq, Eq, Structural)]
pub enum CompanionCommand {
    /// Start or stop AI detection.
    SetAiEnabled { enabled: bool },
    /// Start or stop video streaming.
    SetStreamEnabled { enabled: bool },
    /// Capture one high-resolution photo for mapping.
    CapturePhoto,
    /// Start or stop survey photo capture, with the capture interval in ms.
    SetSurveyMode { enabled: bool, interval_ms: u32 },
    /// Ask for the companion's status.
    RequestStatus,
}

} // verus!
