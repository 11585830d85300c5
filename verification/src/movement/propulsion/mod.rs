//! Grouping of the drive thrusters.

pub mod thruster;

use vstd::prelude::*;
use thruster::Thruster;
use crate::error::PeripheralInitError;
use crate::traits::Tick;

verus! {

/// The control pin the port thruster is wired to.
pub const PORT_THRUSTER_PIN: u8 = 19;

/// The drive thrusters.
pub struct Propulsion {
    pub port_thruster: Thruster,
}

/// A thrust demand: lateral `x` and forward `y`, in millionths of full
/// scale.
#[derive(Debug, Copy, Clone, PartialEq, Eq, Structural)]
pub struct ThrustVector {
    pub x: i32,
    pub y: i32,
}

impl Propulsion {
    /// The state after one tick of every thruster.
    pub open spec fn spec_tick(self, tick_count: u32) -> Self {
        Propulsion { port_thruster: self.port_thruster.spec_tick(tick_count) }
    }

    /// Thrusters at rest.
    pub fn new() -> (r: Result<Propulsion, PeripheralInitError>)
        ensures
            match r {
                Ok(p) => !p.port_thruster.en_pin_high,
                Err(_) => false,
            },
    {
        Ok(Propulsion { port_thruster: Thruster::new(PORT_THRUSTER_PIN)? })
    }
}

impl Tick for Propulsion {
    fn tick(&mut self, tick_count: u32)
        ensures
            *final(self) == old(self).spec_tick(tick_count),
    {
        self.port_thruster.tick(tick_count);
    }
}

} // verus!
