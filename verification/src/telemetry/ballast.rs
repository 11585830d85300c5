//! Ballast telemetry: the machine's current and target state.

use vstd::prelude::*;
use crate::hardware_model::Submarine;
use super::TELEMETRY_PACKET_SIZE;

verus! {

/// Number of leading packet bytes this telemeter fills.
pub const BALLAST_SERIALIZED_SIZE: u8 = 3;

/// Snapshot of the ballast machine for one packet.
#[derive(Debug, Copy, Clone, PartialEq, Eq, Structural)]
pub struct BallastTelemetry {
    pub current_state: u8,
    pub target_state: u8,
}

impl BallastTelemetry {
    /// An empty snapshot.
    pub fn new() -> (r: BallastTelemetry)
        ensures
            r.current_state == 0,
            r.target_state == 0,
    {
        BallastTelemetry { current_state: 0, target_state: 0 }
    }

    /// Read the ballast machine's states through its getters.
    pub fn collect(&mut self, sub: &Submarine)
        ensures
            final(self).current_state == sub.ballast.state.spec_as_byte(),
            final(self).target_state == sub.ballast.target_state.spec_as_byte(),
    {
        let ballast = &sub.ballast;
        self.current_state = ballast.get_current_state().as_byte();
        self.target_state = ballast.get_target_state().as_byte();
    }

    /// Write the snapshot into the head of a packet buffer and report how
    /// many leading bytes belong to this telemeter.
    pub fn serialize(&self, buffer: &mut Vec<u8>) -> (used: u8)
        requires
            old(buffer)@.len() == TELEMETRY_PACKET_SIZE,
        ensures
            final(buffer)@.len() == TELEMETRY_PACKET_SIZE,
            final(buffer)@[0] == self.current_state,
            final(buffer)@[1] == self.target_state,
            forall|i: int| 2 <= i < TELEMETRY_PACKET_SIZE
                ==> final(buffer)@[i] == old(buffer)@[i],
            used == BALLAST_SERIALIZED_SIZE,
    {
        buffer[0] = self.current_state;
        buffer[1] = self.target_state;
        BALLAST_SERIALIZED_SIZE
    }
}

} // verus!
