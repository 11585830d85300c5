//! Error values of the control core.

use vstd::prelude::*;

verus! {

/// Failure to acquire or initialize a peripheral at startup.  Fatal: the
/// daemon refuses to run with partially initialized hardware.
#[derive(Debug, Clone, PartialEq, Eq)]
pub struct PeripheralInitError {
    pub message: String,
}

/// One failed sensor acquisition; the previous sample stays in place and is
/// marked stale.
#[derive(Debug, Copy, Clone, PartialEq, Eq, Structural)]
pub enum SensorError {
    /// The sensor did not acknowledge the start signal in time.
    Handshake,
    /// A pulse of the data transmission timed out.
    DataTransmission,
    /// The transmitted checksum byte does not match the data bytes.
    Parity,
}

} // verus!
