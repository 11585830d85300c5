//! The movement layer above the raw thruster drivers.

pub mod propulsion;

use vstd::prelude::*;
use crate::error::PeripheralInitError;
use crate::traits::Tick;

verus! {

/// Everything that moves the vehicle.
pub struct Movement {
    pub propulsion: propulsion::Propulsion,
}

impl Movement {
    /// A movement layer with its thrusters at rest.
    pub fn new() -> (r: Result<Movement, PeripheralInitError>)
        ensures
            match r {
                Ok(m) => !m.propulsion.port_thruster.en_pin_high,
                Err(_) => false,
            },
    {
        Ok(Movement { propulsion: propulsion::Propulsion::new()? })
    }
}

impl Tick for Movement {
    fn tick(&mut self, tick_count: u32)
        ensures
            final(self).propulsion == old(self).propulsion.spec_tick(tick_count),
    {
        self.propulsion.tick(tick_count);
    }
}

} // verus!
