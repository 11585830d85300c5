//! The aft (forward) thruster: a ramp-limited controller whose output gate
//! follows the reported duty cycle, so the driver is released whenever the
//! output has decayed to zero.

use vstd::prelude::*;
use crate::config::hardware::propulsion::PropulsionConfig;
use crate::definitions::UNIT_MICROS;
use crate::error::PeripheralInitError;
use crate::traits::Tick;
use super::{spec_ramp_step, ThrusterController};

verus! {

/// Forward drive controller.  `current_duty_cycle` models what the PWM
/// output reports; `output_enabled` models the driver's enable latch.
#[derive(Debug, Copy, Clone, PartialEq, Eq, Structural)]
pub struct AftThrusterController {
    pub current_duty_cycle: u32,
    pub target_duty_cycle: u32,
    pub output_enabled: bool,
    pub step_up_limit: u32,
    pub step_down_limit: u32,
}

impl AftThrusterController {
    /// Both duty cycles stay inside one unit of full scale.
    pub open spec fn well_formed(self) -> bool {
        &&& self.current_duty_cycle <= UNIT_MICROS
        &&& self.target_duty_cycle <= UNIT_MICROS
    }

    /// The state after one tick: the enable latch reflects whether the
    /// output reported drive beforehand, then the duty cycle ramps toward
    /// the target.
    pub open spec fn spec_tick(self) -> Self {
        AftThrusterController {
            output_enabled: self.current_duty_cycle > 0,
            current_duty_cycle: spec_ramp_step(
                self.current_duty_cycle,
                self.target_duty_cycle,
                self.step_up_limit,
                self.step_down_limit,
            ),
            ..self
        }
    }

    /// A controller at rest, with the ramp caps the configuration asks for.
    pub fn new(config: &PropulsionConfig) -> (r: Result<
        AftThrusterController,
        PeripheralInitError,
    >)
        ensures
            match r {
                Ok(t) => {
                    &&& t.current_duty_cycle == 0
                    &&& t.target_duty_cycle == 0
                    &&& !t.output_enabled
                    &&& t.step_up_limit == config.thrust_step_up
                    &&& t.step_down_limit == config.thrust_step_down
                    &&& t.well_formed()
                },
                Err(_) => false,
            },
    {
        Ok(
            AftThrusterController {
                current_duty_cycle: 0,
                target_duty_cycle: 0,
                output_enabled: false,
                step_up_limit: config.thrust_step_up,
                step_down_limit: config.thrust_step_down,
            },
        )
    }

    fn update(&mut self)
        ensures
            *final(self) == old(self).spec_tick(),
    {
        if self.current_duty_cycle == 0 {
            self.output_enabled = false;
        } else {
            self.output_enabled = true;
        }
        let new_duty_cycle = super::compute_new_duty_cycle(
            self.current_duty_cycle,
            self.target_duty_cycle,
            self.step_up_limit,
            self.step_down_limit,
        );
        self.current_duty_cycle = new_duty_cycle;
    }

    /// The duty cycle the output reports now.
    pub fn get_current_duty_cycle(&self) -> (r: u32)
        ensures
            r == self.current_duty_cycle,
    {
        self.current_duty_cycle
    }

    /// The set-point the ramp is heading for.
    pub fn get_target_duty_cycle(&self) -> (r: u32)
        ensures
            r == self.target_duty_cycle,
    {
        self.target_duty_cycle
    }
}

impl Tick for AftThrusterController {
    fn tick(&mut self, _tick_count: u32)
        ensures
            *final(self) == old(self).spec_tick(),
            old(self).well_formed() ==> final(self).well_formed(),
    {
        self.update();
        proof {
            super::lemma_ramp_step_limits(
                old(self).current_duty_cycle,
                old(self).target_duty_cycle,
                old(self).step_up_limit,
                old(self).step_down_limit,
            );
        }
    }
}

impl ThrusterController for AftThrusterController {
    /// Point the ramp at a new set-point; values above one unit saturate.
    fn set_duty_cycle(&mut self, duty_cycle: u32)
        ensures
            *final(self) == (AftThrusterController {
                target_duty_cycle: if duty_cycle > UNIT_MICROS {
                    UNIT_MICROS
                } else {
                    duty_cycle
                },
                ..*old(self)
            }),
    {
        let clamped: u32 = if duty_cycle > UNIT_MICROS {
            UNIT_MICROS
        } else {
            duty_cycle
        };
        self.target_duty_cycle = clamped;
    }

    fn enable(&mut self, en: bool)
        ensures
            *final(self) == (AftThrusterController { output_enabled: en, ..*old(self) }),
    {
        self.output_enabled = en;
    }

    fn is_enabled(&self) -> (r: bool)
        ensures
            r == self.output_enabled,
    {
        self.output_enabled
    }
}

} // verus!
