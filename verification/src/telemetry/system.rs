//! Self-telemetry: how long each tick ran and idled, in microseconds.

use vstd::prelude::*;
use vstd::bytes::{spec_u32_to_le_bytes, u32_to_le_bytes};
use super::TELEMETRY_PACKET_SIZE;

verus! {

/// Number of leading packet bytes this telemeter fills.
pub const SYSTEM_SERIALIZED_SIZE: u8 = 12;

/// Timing of the most recent tick, in microseconds.
#[derive(Debug, Copy, Clone, PartialEq, Eq, Structural)]
pub struct SystemTelemetry {
    pub tick_delta_micros: u32,
    pub tick_idle_micros: u32,
    pub total_tick_micros: u32,
}

impl SystemTelemetry {
    /// All-zero timing.
    pub fn new() -> (r: SystemTelemetry)
        ensures
            r.tick_delta_micros == 0,
            r.tick_idle_micros == 0,
            r.total_tick_micros == 0,
    {
        SystemTelemetry { tick_delta_micros: 0, tick_idle_micros: 0, total_tick_micros: 0 }
    }

    /// Record one tick: how long it ran (`delta`) and how long it slept
    /// (`delay`); the total saturates instead of wrapping.
    pub fn ingest_tick(&mut self, delta: u32, delay: u32)
        ensures
            final(self).tick_delta_micros == delta,
            final(self).tick_idle_micros == delay,
            final(self).total_tick_micros == if delta + delay > u32::MAX {
                u32::MAX
            } else {
                (delta + delay) as u32
            },
    {
        self.tick_delta_micros = delta;
        self.tick_idle_micros = delay;
        self.total_tick_micros = if delta > u32::MAX - delay {
            u32::MAX
        } else {
            delta + delay
        };
    }

    /// Write the three timings into the head of a packet buffer as
    /// little-endian 32-bit values: run, idle, total.
    pub fn serialize(&self, buffer: &mut Vec<u8>) -> (used: u8)
        requires
            old(buffer)@.len() == TELEMETRY_PACKET_SIZE,
        ensures
            final(buffer)@.len() == TELEMETRY_PACKET_SIZE,
            final(buffer)@.subrange(0, 4) == spec_u32_to_le_bytes(self.tick_delta_micros),
            final(buffer)@.subrange(4, 8) == spec_u32_to_le_bytes(self.tick_idle_micros),
            final(buffer)@.subrange(8, 12) == spec_u32_to_le_bytes(self.total_tick_micros),
            forall|i: int| 12 <= i < TELEMETRY_PACKET_SIZE
                ==> final(buffer)@[i] == old(buffer)@[i],
            used == SYSTEM_SERIALIZED_SIZE,
    {
        proof {
            vstd::bytes::lemma_auto_spec_u32_to_from_le_bytes();
        }
        let delta = u32_to_le_bytes(self.tick_delta_micros);
        let idle = u32_to_le_bytes(self.tick_idle_micros);
        let total = u32_to_le_bytes(self.total_tick_micros);

        buffer[0] = delta[0];
        buffer[1] = delta[1];
        buffer[2] = delta[2];
        buffer[3] = delta[3];

        buffer[4] = idle[0];
        buffer[5] = idle[1];
        buffer[6] = idle[2];
        buffer[7] = idle[3];

        buffer[8] = total[0];
        buffer[9] = total[1];
        buffer[10] = total[2];
        buffer[11] = total[3];

        proof {
            assert(buffer@.subrange(0, 4) =~= spec_u32_to_le_bytes(self.tick_delta_micros));
            assert(buffer@.subrange(4, 8) =~= spec_u32_to_le_bytes(self.tick_idle_micros));
            assert(buffer@.subrange(8, 12) =~= spec_u32_to_le_bytes(self.total_tick_micros));
        }
        SYSTEM_SERIALIZED_SIZE
    }
}

} // verus!
