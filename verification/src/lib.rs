//! Verified core of a ground control station for fixed-wing UAVs running
//! ArduPilot: flight-mode and GPS codes, connection strings, telemetry
//! state, heartbeat supervision, command encoding and the operator console.

pub mod companion;
pub mod config;
pub mod connection;
pub mod console;
pub mod frames;
pub mod gamepad;
pub mod heartbeat;
pub mod messages;
pub mod panels;
pub mod telemetry;
pub mod text;
pub mod transmission;
pub mod types;
pub mod video;
