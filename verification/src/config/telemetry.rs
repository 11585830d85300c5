//! Telemetry sink configuration.

use vstd::prelude::*;

verus! {

/// Where the telemetry transport worker writes its packets.
#[derive(Debug, Clone)]
pub struct TelemetryConfig {
    /// Path of the named pipe the packets are written to.
    pub socket: String,
}

} // verus!
