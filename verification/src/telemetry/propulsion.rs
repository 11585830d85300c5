//! Propulsion telemetry: the clamped thrust direction and which drivers
//! are live.

use vstd::prelude::*;
use vstd::bytes::{spec_u32_to_le_bytes, u32_to_le_bytes};
use crate::definitions::DirectionVector;
use crate::hardware_model::Submarine;
use super::TELEMETRY_PACKET_SIZE;

verus! {

/// Number of leading packet bytes this telemeter fills.
pub const PROPULSION_SERIALIZED_SIZE: u8 = 9;

/// Snapshot of the propulsion subsystem for one packet.
#[derive(Debug, Copy, Clone, PartialEq, Eq, Structural)]
pub struct PropulsionTelemetry {
    pub vector: DirectionVector,
    pub aft_en: bool,
    pub sb_en: bool,
    pub port_en: bool,
}

/// The flag byte: aft driver in bit 2, starboard in bit 1, port in bit 0.
pub open spec fn spec_state_flags(aft_en: bool, sb_en: bool, port_en: bool) -> u8 {
    ((if aft_en {
        4int
    } else {
        0int
    }) + (if sb_en {
        2int
    } else {
        0int
    }) + (if port_en {
        1int
    } else {
        0int
    })) as u8
}

impl PropulsionTelemetry {
    /// An empty snapshot.
    pub fn new() -> (r: PropulsionTelemetry)
        ensures
            r.vector == (DirectionVector { x_micros: 0, y_micros: 0 }),
            !r.aft_en,
            !r.sb_en,
            !r.port_en,
    {
        PropulsionTelemetry {
            vector: DirectionVector { x_micros: 0, y_micros: 0 },
            aft_en: false,
            sb_en: false,
            port_en: false,
        }
    }

    /// Read the propulsion state through its getters.
    pub fn collect(&mut self, sub: &Submarine)
        ensures
            final(self).vector == sub.propulsion.vector,
            final(self).aft_en == sub.propulsion.aft_thruster.output_enabled,
            final(self).sb_en == (sub.propulsion.yaw_thruster.output_enabled
                && sub.propulsion.yaw_thruster.active_thruster
                == crate::hardware_model::propulsion::yaw_thrust::YawThruster::Starboard),
            final(self).port_en == (sub.propulsion.yaw_thruster.output_enabled
                && sub.propulsion.yaw_thruster.active_thruster
                == crate::hardware_model::propulsion::yaw_thrust::YawThruster::Port),
    {
        let propulsion = &sub.propulsion;
        self.vector = propulsion.get_direction();
        self.aft_en = propulsion.get_aft_state();
        self.sb_en = propulsion.get_sb_state();
        self.port_en = propulsion.get_port_state();
    }

    /// Write the snapshot into the head of a packet buffer: the two
    /// direction components as little-endian 32-bit two's-complement
    /// millionths, then the driver flag byte.
    pub fn serialize(&self, buffer: &mut Vec<u8>) -> (used: u8)
        requires
            old(buffer)@.len() == TELEMETRY_PACKET_SIZE,
        ensures
            final(buffer)@.len() == TELEMETRY_PACKET_SIZE,
            final(buffer)@.subrange(0, 4) == spec_u32_to_le_bytes(self.vector.x_micros as u32),
            final(buffer)@.subrange(4, 8) == spec_u32_to_le_bytes(self.vector.y_micros as u32),
            final(buffer)@[8] == spec_state_flags(self.aft_en, self.sb_en, self.port_en),
            forall|i: int| 9 <= i < TELEMETRY_PACKET_SIZE
                ==> final(buffer)@[i] == old(buffer)@[i],
            used == PROPULSION_SERIALIZED_SIZE,
    {
        proof {
            vstd::bytes::lemma_auto_spec_u32_to_from_le_bytes();
        }
        let x_buf = u32_to_le_bytes(self.vector.x_micros as u32);
        let y_buf = u32_to_le_bytes(self.vector.y_micros as u32);

        buffer[0] = x_buf[0];
        buffer[1] = x_buf[1];
        buffer[2] = x_buf[2];
        buffer[3] = x_buf[3];

        buffer[4] = y_buf[0];
        buffer[5] = y_buf[1];
        buffer[6] = y_buf[2];
        buffer[7] = y_buf[3];

        let mut flags: u8 = 0;
        if self.aft_en {
            flags = flags + 4;
        }
        if self.sb_en {
            flags = flags + 2;
        }
        if self.port_en {
            flags = flags + 1;
        }
        buffer[8] = flags;

        proof {
            assert(buffer@.subrange(0, 4) =~= spec_u32_to_le_bytes(self.vector.x_micros as u32));
            assert(buffer@.subrange(4, 8) =~= spec_u32_to_le_bytes(self.vector.y_micros as u32));
        }
        PROPULSION_SERIALIZED_SIZE
    }
}

} // verus!
