//! Environment telemetry: the last sensor sample and its staleness.

use vstd::prelude::*;
use crate::hardware_model::Submarine;
use super::TELEMETRY_PACKET_SIZE;

verus! {

/// Number of leading packet bytes this telemeter fills.
pub const ENVIRONMENT_SERIALIZED_SIZE: u8 = 3;

/// Snapshot of the cabin environment for one packet.
#[derive(Debug, Copy, Clone, PartialEq, Eq, Structural)]
pub struct EnvironmentTelemetry {
    pub internal_temperature_c: u8,
    pub internal_humidity_percent: u8,
    /// Set when the last read attempt did not refresh the sample.
    pub is_stale: bool,
}

impl EnvironmentTelemetry {
    /// An empty snapshot, stale until a read succeeds.
    pub fn new() -> (r: EnvironmentTelemetry)
        ensures
            r.internal_temperature_c == 0,
            r.internal_humidity_percent == 0,
            r.is_stale,
    {
        EnvironmentTelemetry {
            internal_temperature_c: 0,
            internal_humidity_percent: 0,
            is_stale: true,
        }
    }

    /// Read the sensor's last sample through its getters.
    pub fn collect(&mut self, sub: &Submarine)
        ensures
            final(self).internal_temperature_c == sub.dht11.last_measured_temp.0,
            final(self).internal_humidity_percent == sub.dht11.last_measured_rh.0,
            final(self).is_stale == !sub.dht11.last_read_valid,
    {
        self.internal_temperature_c = sub.dht11.get_temperature();
        self.internal_humidity_percent = sub.dht11.get_humidity();
        self.is_stale = !sub.dht11.is_last_read_valid();
    }

    /// Write the snapshot into the head of a packet buffer and report how
    /// many leading bytes belong to this telemeter.
    pub fn serialize(&self, buffer: &mut Vec<u8>) -> (used: u8)
        requires
            old(buffer)@.len() == TELEMETRY_PACKET_SIZE,
        ensures
            final(buffer)@.len() == TELEMETRY_PACKET_SIZE,
            final(buffer)@[0] == self.internal_temperature_c,
            final(buffer)@[1] == self.internal_humidity_percent,
            final(buffer)@[2] == (if self.is_stale { 1u8 } else { 0u8 }),
            forall|i: int| 3 <= i < TELEMETRY_PACKET_SIZE
                ==> final(buffer)@[i] == old(buffer)@[i],
            used == ENVIRONMENT_SERIALIZED_SIZE,
    {
        buffer[0] = self.internal_temperature_c;
        buffer[1] = self.internal_humidity_percent;
        buffer[2] = if self.is_stale {
            1
        } else {
            0
        };
        ENVIRONMENT_SERIALIZED_SIZE
    }
}

} // verus!
