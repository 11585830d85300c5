//! Humidity/temperature sensor configuration.

use vstd::prelude::*;

verus! {

/// DHT11 sensor configuration.
#[derive(Debug, Copy, Clone, PartialEq, Eq, Structural)]
pub struct Dht11Config {
    pub gpio: Dht11GpioConfig,
    /// Sampling cadence, in tens of ticks between reads.
    pub sample_interval: u8,
}

/// The sensor's single data pin.
#[derive(Debug, Copy, Clone, PartialEq, Eq, Structural)]
pub struct Dht11GpioConfig {
    pub data_pin: u8,
}

} // verus!
