//! Temperature sensor configuration.

use vstd::prelude::*;

verus! {

/// Temperature sensing configuration.
#[derive(Debug, Copy, Clone, PartialEq, Eq, Structural)]
pub struct TemperatureConfig {
    pub gpio: TemperatureGpioConfig,
    /// Sampling cadence, in tens of ticks between reads.
    pub sample_interval: u8,
}

/// The sensor's single data pin.
#[derive(Debug, Copy, Clone, PartialEq, Eq, Structural)]
pub struct TemperatureGpioConfig {
    pub data_pin: u8,
}

} // verus!
