//! Startup configuration, loaded once by the host process and handed to the
//! core as plain values.

pub mod hardware;
pub mod telemetry;

use vstd::prelude::*;
use hardware::HardwareConfig;
use telemetry::TelemetryConfig;

verus! {

/// The whole configuration of the daemon.
#[derive(Debug, Clone)]
pub struct Config {
    pub system: SystemConfig,
    pub commanding: CommandingConfig,
    pub hardware: HardwareConfig,
    pub telemetry: TelemetryConfig,
}

/// Timing of the control loop.
#[derive(Debug, Clone, PartialEq, Eq, Structural)]
pub struct SystemConfig {
    /// Control loop rate in ticks per second.
    pub tick_rate: u8,
}

/// Where the command listener accepts connections.
#[derive(Debug, Clone)]
pub struct CommandingConfig {
    /// Path of the local stream socket commands arrive on.
    pub socket: String,
}

} // verus!
