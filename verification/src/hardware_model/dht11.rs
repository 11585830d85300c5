//! The DHT11 humidity/temperature sensor, as the core sees it.
//!
//! The micro-timed one-wire signalling runs in the host process; the core
//! owns everything that can be stated exactly: turning pulse lengths into
//! bits, assembling and checking the 40-bit transmission, the sampling
//! cadence, and the last-known-good sample with its staleness flag.

use vstd::prelude::*;
use crate::config::hardware::temperature::TemperatureConfig;
use crate::error::{PeripheralInitError, SensorError};

verus! {

/// A decoded sensor transmission: `(temperature, humidity)`, each as the
/// sensor's integral and fractional byte.
pub type SensorSample = ((u8, u8), (u8, u8));

/// The sensor state the core keeps between reads.
#[derive(Debug, Copy, Clone, PartialEq, Eq)]
pub struct Dht11 {
    /// Sampling cadence: a read every `sample_interval * 10` ticks.
    pub sample_interval: u8,
    pub last_measured_temp: (u8, u8),
    pub last_measured_rh: (u8, u8),
    pub last_read_valid: bool,
    pub successive_failures: u8,
}

/// Numeric value of one received bit.
pub open spec fn spec_bit(b: bool) -> u8 {
    if b {
        1
    } else {
        0
    }
}

/// The byte formed by eight bits starting at `start`, most significant
/// first, as the sensor transmits them.
pub open spec fn spec_byte_from_bits(bits: Seq<bool>, start: int) -> u8 {
    (128 * spec_bit(bits[start]) + 64 * spec_bit(bits[start + 1]) + 32 * spec_bit(
        bits[start + 2],
    ) + 16 * spec_bit(bits[start + 3]) + 8 * spec_bit(bits[start + 4]) + 4 * spec_bit(
        bits[start + 5],
    ) + 2 * spec_bit(bits[start + 6]) + spec_bit(bits[start + 7])) as u8
}

/// The sample a 40-bit transmission decodes to: two humidity bytes are
/// preceded by two temperature bytes and followed by a modular checksum of
/// the four; a transmission of the wrong length or with a checksum mismatch
/// is rejected.
pub open spec fn spec_decode_transmission(bits: Seq<bool>) -> Result<SensorSample, SensorError> {
    if bits.len() != 40 {
        Err(SensorError::DataTransmission)
    } else {
        let b0 = spec_byte_from_bits(bits, 0);
        let b1 = spec_byte_from_bits(bits, 8);
        let b2 = spec_byte_from_bits(bits, 16);
        let b3 = spec_byte_from_bits(bits, 24);
        let b4 = spec_byte_from_bits(bits, 32);
        if (b0 + b1 + b2 + b3) % 256 != b4 {
            Err(SensorError::Parity)
        } else {
            Ok(((b0, b1), (b2, b3)))
        }
    }
}

/// Assemble one transmitted byte, most significant bit first.
fn byte_from_bits(bits: &[bool], start: usize) -> (r: u8)
    requires
        start + 8 <= bits@.len(),
    ensures
        r == spec_byte_from_bits(bits@, start as int),
{
    let mut value: u8 = 0;
    if bits[start] {
        value = value + 128;
    }
    if bits[start + 1] {
        value = value + 64;
    }
    if bits[start + 2] {
        value = value + 32;
    }
    if bits[start + 3] {
        value = value + 16;
    }
    if bits[start + 4] {
        value = value + 8;
    }
    if bits[start + 5] {
        value = value + 4;
    }
    if bits[start + 6] {
        value = value + 2;
    }
    if bits[start + 7] {
        value = value + 1;
    }
    value
}

/// The bit one pulse encodes: during data transmission every low phase
/// lasts about 50 us, and a high phase longer than its low phase is a 1.
pub fn get_pulse_as_bit(low_duration: u32, high_duration: u32) -> (r: bool)
    ensures
        r == (high_duration > low_duration),
{
    high_duration > low_duration
}

/// Decode one 40-bit transmission into a sample, rejecting length and
/// checksum errors.
pub fn decode_transmission(bits: &[bool]) -> (r: Result<SensorSample, SensorError>)
    ensures
        r == spec_decode_transmission(bits@),
{
    if bits.len() != 40 {
        return Err(SensorError::DataTransmission);
    }
    let b0 = byte_from_bits(bits, 0);
    let b1 = byte_from_bits(bits, 8);
    let b2 = byte_from_bits(bits, 16);
    let b3 = byte_from_bits(bits, 24);
    let b4 = byte_from_bits(bits, 32);
    let sum: u32 = b0 as u32 + b1 as u32 + b2 as u32 + b3 as u32;
    if (sum % 256) as u8 != b4 {
        return Err(SensorError::Parity);
    }
    Ok(((b0, b1), (b2, b3)))
}

impl Dht11 {
    /// A sensor with no sample yet: the first telemetry is marked stale
    /// until a read succeeds.
    pub fn new(config: &TemperatureConfig) -> (r: Result<Dht11, PeripheralInitError>)
        requires
            config.sample_interval >= 1,
        ensures
            match r {
                Ok(d) => {
                    &&& d.sample_interval == config.sample_interval
                    &&& d.last_measured_temp == ((0u8, 0u8))
                    &&& d.last_measured_rh == ((0u8, 0u8))
                    &&& !d.last_read_valid
                    &&& d.successive_failures == 0
                    &&& d.sample_interval >= 1
                },
                Err(_) => false,
            },
    {
        Ok(
            Dht11 {
                sample_interval: config.sample_interval,
                last_measured_temp: (0, 0),
                last_measured_rh: (0, 0),
                last_read_valid: false,
                successive_failures: 0,
            },
        )
    }

    /// Whether this tick is one of the sampling ticks.
    pub fn should_sample(&self, tick_count: u32) -> (r: bool)
        requires
            self.sample_interval >= 1,
        ensures
            r == (tick_count as int % (self.sample_interval as int * 10) == 0),
    {
        tick_count % (self.sample_interval as u32 * 10) == 0
    }

    /// Take the outcome of one sensor read.  Success stores the sample and
    /// clears the staleness flag; failure keeps the last-known-good sample,
    /// marks it stale and counts the failure (saturating).
    pub fn ingest_sample(&mut self, outcome: Result<SensorSample, SensorError>)
        ensures
            *final(self) == match outcome {
                Ok(sample) => Dht11 {
                    last_measured_temp: sample.0,
                    last_measured_rh: sample.1,
                    last_read_valid: true,
                    successive_failures: 0,
                    ..*old(self)
                },
                Err(_) => Dht11 {
                    last_read_valid: false,
                    successive_failures: if old(self).successive_failures == 255 {
                        255
                    } else {
                        (old(self).successive_failures + 1) as u8
                    },
                    ..*old(self)
                },
            },
    {
        match outcome {
            Ok(sample) => {
                self.last_measured_temp = sample.0;
                self.last_measured_rh = sample.1;
                self.last_read_valid = true;
                self.successive_failures = 0;
            },
            Err(_) => {
                self.last_read_valid = false;
                if self.successive_failures < 255 {
                    self.successive_failures = self.successive_failures + 1;
                }
            },
        }
    }

    /// Integral part of the last measured temperature, degrees Celsius.
    pub fn get_temperature(&self) -> (r: u8)
        ensures
            r == self.last_measured_temp.0,
    {
        self.last_measured_temp.0
    }

    /// Integral part of the last measured relative humidity, percent.
    pub fn get_humidity(&self) -> (r: u8)
        ensures
            r == self.last_measured_rh.0,
    {
        self.last_measured_rh.0
    }

    /// Whether the last read attempt refreshed the sample.
    pub fn is_last_read_valid(&self) -> (r: bool)
        ensures
            r == self.last_read_valid,
    {
        self.last_read_valid
    }
}

} // verus!
