//! A single on/off drive thruster.

use vstd::prelude::*;
use crate::error::PeripheralInitError;
use crate::traits::Tick;

verus! {

/// One thruster behind a plain enable pin; the boolean models the pin
/// level.
#[derive(Debug, Copy, Clone, PartialEq, Eq, Structural)]
pub struct Thruster {
    pub en_pin_high: bool,
}

impl Thruster {
    /// The state after one tick: the pin toggles every tenth tick.
    pub open spec fn spec_tick(self, tick_count: u32) -> Self {
        if tick_count % 10 == 0 {
            Thruster { en_pin_high: !self.en_pin_high }
        } else {
            self
        }
    }

    /// A thruster wired to `control_pin`, off.
    pub fn new(_control_pin: u8) -> (r: Result<Thruster, PeripheralInitError>)
        ensures
            match r {
                Ok(t) => !t.en_pin_high,
                Err(_) => false,
            },
    {
        Ok(Thruster { en_pin_high: false })
    }

    /// Drive the enable pin high.
    pub fn enable(&mut self)
        ensures
            final(self).en_pin_high,
    {
        self.en_pin_high = true;
    }

    /// Drive the enable pin low.
    pub fn disable(&mut self)
        ensures
            !final(self).en_pin_high,
    {
        self.en_pin_high = false;
    }
}

impl Tick for Thruster {
    fn tick(&mut self, tick_count: u32)
        ensures
            *final(self) == old(self).spec_tick(tick_count),
    {
        if tick_count % 10 == 0 {
            self.en_pin_high = !self.en_pin_high;
        }
    }
}

} // verus!
