//! The ramp-limited duty-cycle controller every PWM actuator is built on.

use vstd::prelude::*;
use crate::config::hardware::propulsion::PropulsionConfig;
use crate::definitions::UNIT_MICROS;
use crate::error::PeripheralInitError;
use crate::traits::{SubmarineComponent, Tick};
use super::spec_ramp_step;

verus! {

/// A single PWM-driven thruster with ramp-limited duty-cycle control.
///
/// `current_duty_cycle` models the value the physical output reports; the
/// host process mirrors it onto the PWM pin after every tick.  All duty
/// cycles are in millionths of full scale.
#[derive(Debug, Copy, Clone, PartialEq, Eq, Structural)]
pub struct Thruster {
    pub current_duty_cycle: u32,
    pub target_duty_cycle: u32,
    pub enabled: bool,
    pub step_up_limit: u32,
    pub step_down_limit: u32,
}

impl Thruster {
    /// Both duty cycles stay inside one unit of full scale.
    pub open spec fn well_formed(self) -> bool {
        &&& self.current_duty_cycle <= UNIT_MICROS
        &&& self.target_duty_cycle <= UNIT_MICROS
    }

    /// The state after one tick: ramp toward the target when enabled, hold
    /// otherwise.
    pub open spec fn spec_tick(self) -> Self {
        if self.enabled {
            Thruster {
                current_duty_cycle: spec_ramp_step(
                    self.current_duty_cycle,
                    self.target_duty_cycle,
                    self.step_up_limit,
                    self.step_down_limit,
                ),
                ..self
            }
        } else {
            self
        }
    }

    /// A controller at rest, with the ramp caps the configuration asks for.
    pub fn new(conf: &PropulsionConfig) -> (r: Result<Thruster, PeripheralInitError>)
        ensures
            match r {
                Ok(t) => {
                    &&& t.current_duty_cycle == 0
                    &&& t.target_duty_cycle == 0
                    &&& t.enabled
                    &&& t.step_up_limit == conf.thrust_step_up
                    &&& t.step_down_limit == conf.thrust_step_down
                    &&& t.well_formed()
                },
                Err(_) => false,
            },
    {
        Ok(
            Thruster {
                current_duty_cycle: 0,
                target_duty_cycle: 0,
                enabled: true,
                step_down_limit: conf.thrust_step_down,
                step_up_limit: conf.thrust_step_up,
            },
        )
    }

    /// Point the ramp at a new set-point; values above one unit saturate.
    pub fn set_target_duty_cycle(&mut self, duty_cycle: u32)
        ensures
            *final(self) == (Thruster {
                target_duty_cycle: if duty_cycle > UNIT_MICROS {
                    UNIT_MICROS
                } else {
                    duty_cycle
                },
                ..*old(self)
            }),
    {
        let clamped: u32 = if duty_cycle > UNIT_MICROS {
            UNIT_MICROS
        } else {
            duty_cycle
        };
        self.target_duty_cycle = clamped;
    }

    /// Write the output directly, bypassing the ramp; values above one unit
    /// saturate.
    pub fn set_duty_cycle(&mut self, duty_cycle: u32)
        ensures
            *final(self) == (Thruster {
                current_duty_cycle: if duty_cycle > UNIT_MICROS {
                    UNIT_MICROS
                } else {
                    duty_cycle
                },
                ..*old(self)
            }),
    {
        let clamped: u32 = if duty_cycle > UNIT_MICROS {
            UNIT_MICROS
        } else {
            duty_cycle
        };
        self.current_duty_cycle = clamped;
    }

    /// The set-point the ramp is heading for.
    pub fn get_target_duty_cycle(&self) -> (r: u32)
        ensures
            r == self.target_duty_cycle,
    {
        self.target_duty_cycle
    }

    /// The duty cycle the output reports now.
    pub fn get_current_duty_cycle(&self) -> (r: u32)
        ensures
            r == self.current_duty_cycle,
    {
        self.current_duty_cycle
    }
}

impl SubmarineComponent for Thruster {
    fn enable(&mut self)
        ensures
            *final(self) == (Thruster { enabled: true, ..*old(self) }),
    {
        self.enabled = true;
    }

    fn disable(&mut self)
        ensures
            *final(self) == (Thruster { enabled: false, ..*old(self) }),
    {
        self.enabled = false;
    }
}

impl Tick for Thruster {
    fn tick(&mut self, _tick_count: u32)
        ensures
            *final(self) == old(self).spec_tick(),
            old(self).well_formed() ==> final(self).well_formed(),
    {
        if !self.enabled {
            return;
        }
        let new_duty_cycle = super::compute_new_duty_cycle(
            self.current_duty_cycle,
            self.target_duty_cycle,
            self.step_up_limit,
            self.step_down_limit,
        );
        self.current_duty_cycle = new_duty_cycle;
        proof {
            super::lemma_ramp_step_limits(
                old(self).current_duty_cycle,
                old(self).target_duty_cycle,
                old(self).step_up_limit,
                old(self).step_down_limit,
            );
        }
    }
}

} // verus!
