//! Thrust actuation: ramp-limited duty-cycle controllers, the aft (forward)
//! thruster and the yaw pair behind a shared direction-select line.

pub mod aft_thrust;
pub mod thruster;
pub mod yaw_thrust;

use vstd::prelude::*;
use crate::command::commands::PropulsionCommand;
use crate::config::hardware::propulsion::PropulsionConfig;
use crate::definitions::{DirectionVector, UNIT_MICROS};
use crate::definitions::{signed_micros, spec_signed_micros};
use crate::error::PeripheralInitError;
use crate::traits::Tick;
use aft_thrust::AftThrusterController;
use yaw_thrust::{YawThruster, YawThrusterController};

verus! {

/// A duty-cycle actuator that can be pointed at a set-point and gated.
pub trait ThrusterController {
    fn set_duty_cycle(&mut self, duty_cycle: u32);

    fn enable(&mut self, en: bool);

    fn is_enabled(&self) -> bool;
}

/// One ramp step: the duty cycle the controller reports after a tick that
/// starts at `current` and aims at `target`.  The move is capped at
/// `step_up` when rising and `step_down` when falling; a gap no larger than
/// the cap snaps exactly to the target.
pub open spec fn spec_ramp_step(current: u32, target: u32, step_up: u32, step_down: u32) -> u32 {
    if current < target {
        if target - current <= step_up {
            target
        } else {
            (current + step_up) as u32
        }
    } else if current > target {
        if current - target <= step_down {
            target
        } else {
            (current - step_down) as u32
        }
    } else {
        target
    }
}

/// Ramp limiting, stated once for every controller: a step never moves the
/// duty cycle past its cap, never overshoots the target, and lands exactly
/// on the target as soon as the remaining gap is within the cap.
pub proof fn lemma_ramp_step_limits(current: u32, target: u32, step_up: u32, step_down: u32)
    ensures
        current < target ==> current <= spec_ramp_step(current, target, step_up, step_down)
            <= current + step_up,
        current < target && step_up > 0
            ==> current < spec_ramp_step(current, target, step_up, step_down),
        current < target ==> spec_ramp_step(current, target, step_up, step_down) <= target,
        current > target ==> current >= spec_ramp_step(current, target, step_up, step_down)
            >= current - step_down,
        current > target && step_down > 0
            ==> current > spec_ramp_step(current, target, step_up, step_down),
        current > target ==> spec_ramp_step(current, target, step_up, step_down) >= target,
        current < target && target - current <= step_up
            ==> spec_ramp_step(current, target, step_up, step_down) == target,
        current > target && current - target <= step_down
            ==> spec_ramp_step(current, target, step_up, step_down) == target,
        current == target ==> spec_ramp_step(current, target, step_up, step_down) == target,
{
}

/// Compute one ramp step toward a target duty cycle.
pub fn compute_new_duty_cycle(current: u32, target: u32, step_up: u32, step_down: u32) -> (r: u32)
    ensures
        r == spec_ramp_step(current, target, step_up, step_down),
        current <= UNIT_MICROS && target <= UNIT_MICROS ==> r <= UNIT_MICROS,
{
    if current < target {
        if target - current <= step_up {
            target
        } else {
            current + step_up
        }
    } else if current > target {
        if current - target <= step_down {
            target
        } else {
            current - step_down
        }
    } else {
        target
    }
}

/// The propulsion subsystem: the aft (forward) thruster, the yaw pair, and
/// the last commanded thrust direction after clamping.
pub struct Propulsion {
    pub aft_thruster: AftThrusterController,
    pub yaw_thruster: YawThrusterController,
    pub vector: DirectionVector,
}

/// The yaw selection a clamped lateral component asks for: positive picks
/// port, negative starboard, zero stands the yaw authority down.
pub open spec fn spec_yaw_selection(x_micros: int) -> YawThruster {
    if x_micros == 0 {
        YawThruster::Inactive
    } else if x_micros > 0 {
        YawThruster::Port
    } else {
        YawThruster::Starboard
    }
}

impl Propulsion {
    /// The subsystem's invariant: controllers sound, direction clamped.
    pub open spec fn well_formed(self) -> bool {
        &&& self.aft_thruster.well_formed()
        &&& self.yaw_thruster.well_formed()
        &&& self.vector.well_formed()
    }

    /// The state after taking a thrust set-point: the components are
    /// clamped (`x` to [-1, 1], `y` to [0, 1], in millionths), the forward
    /// ramp aims at `y`, and the yaw selector is pointed at the thruster
    /// and magnitude `x` asks for.  No output moves here; ramping happens
    /// on ticks.
    pub open spec fn spec_handle_command(self, cmd: PropulsionCommand) -> Self {
        match cmd {
            PropulsionCommand::SetThrust(v) => {
                let x = spec_signed_micros(v.x_bits);
                let y0 = spec_signed_micros(v.y_bits);
                let y = if y0 < 0 {
                    0
                } else {
                    y0
                };
                let magnitude = if x >= 0 {
                    x
                } else {
                    -x
                };
                Propulsion {
                    vector: DirectionVector { x_micros: x as i32, y_micros: y as i32 },
                    aft_thruster: AftThrusterController {
                        target_duty_cycle: y as u32,
                        ..self.aft_thruster
                    },
                    yaw_thruster: YawThrusterController {
                        target_thruster: spec_yaw_selection(x),
                        target_duty_cycle: magnitude as u32,
                        ..self.yaw_thruster
                    },
                }
            },
        }
    }

    /// The state after one tick: both controllers ramp.
    pub open spec fn spec_tick(self) -> Self {
        Propulsion {
            aft_thruster: self.aft_thruster.spec_tick(),
            yaw_thruster: self.yaw_thruster.spec_tick(),
            ..self
        }
    }

    /// A propulsion subsystem at rest.
    pub fn new(config: &PropulsionConfig) -> (r: Result<Propulsion, PeripheralInitError>)
        ensures
            match r {
                Ok(p) => {
                    &&& p.well_formed()
                    &&& p.vector == (DirectionVector { x_micros: 0, y_micros: 0 })
                    &&& p.aft_thruster.current_duty_cycle == 0
                    &&& p.aft_thruster.target_duty_cycle == 0
                    &&& p.yaw_thruster.active_thruster == YawThruster::Inactive
                    &&& p.yaw_thruster.port.current_duty_cycle == 0
                    &&& p.yaw_thruster.starboard.current_duty_cycle == 0
                    &&& !p.yaw_thruster.switch_high
                },
                Err(_) => false,
            },
    {
        Ok(
            Propulsion {
                aft_thruster: AftThrusterController::new(config)?,
                yaw_thruster: YawThrusterController::new(config)?,
                vector: DirectionVector { x_micros: 0, y_micros: 0 },
            },
        )
    }

    /// Take a thrust set-point from the dispatcher.
    pub fn handle_command(&mut self, cmd: &PropulsionCommand)
        ensures
            *final(self) == old(self).spec_handle_command(*cmd),
            old(self).well_formed() ==> final(self).well_formed(),
    {
        match cmd {
            PropulsionCommand::SetThrust(v) => {
                let x: i32 = signed_micros(v.x_bits);
                let y_signed: i32 = signed_micros(v.y_bits);
                let y: u32 = if y_signed < 0 {
                    0
                } else {
                    y_signed as u32
                };
                self.vector = DirectionVector { x_micros: x, y_micros: y as i32 };
                self.set_forward_thrust(y);
                self.set_yaw_thrust(x);
            },
        }
    }

    /// Aim the forward ramp at the clamped `y` component.
    fn set_forward_thrust(&mut self, y_micros: u32)
        requires
            y_micros <= UNIT_MICROS,
        ensures
            *final(self) == (Propulsion {
                aft_thruster: AftThrusterController {
                    target_duty_cycle: y_micros,
                    ..old(self).aft_thruster
                },
                ..*old(self)
            }),
    {
        self.aft_thruster.set_duty_cycle(y_micros);
    }

    /// Point the yaw selector at the thruster and magnitude the clamped
    /// `x` component asks for.
    fn set_yaw_thrust(&mut self, x_micros: i32)
        requires
            -(UNIT_MICROS as int) <= x_micros <= UNIT_MICROS as int,
        ensures
            *final(self) == (Propulsion {
                yaw_thruster: YawThrusterController {
                    target_thruster: spec_yaw_selection(x_micros as int),
                    target_duty_cycle: if x_micros >= 0 {
                        x_micros as u32
                    } else {
                        (-x_micros) as u32
                    },
                    ..old(self).yaw_thruster
                },
                ..*old(self)
            }),
    {
        if x_micros == 0 {
            self.yaw_thruster.set_thruster(YawThruster::Inactive);
            self.yaw_thruster.set_duty_cycle(0);
        } else if x_micros > 0 {
            self.yaw_thruster.set_thruster(YawThruster::Port);
            self.yaw_thruster.set_duty_cycle(x_micros as u32);
        } else {
            self.yaw_thruster.set_thruster(YawThruster::Starboard);
            self.yaw_thruster.set_duty_cycle((0 - x_micros) as u32);
        }
    }

    /// The last commanded thrust direction, after clamping.
    pub fn get_direction(&self) -> (r: DirectionVector)
        ensures
            r == self.vector,
    {
        self.vector
    }

    /// Whether the aft thruster's driver is enabled.
    pub fn get_aft_state(&self) -> (r: bool)
        ensures
            r == self.aft_thruster.output_enabled,
    {
        self.aft_thruster.is_enabled()
    }

    /// Whether drive is routed to the starboard yaw thruster.
    pub fn get_sb_state(&self) -> (r: bool)
        ensures
            r == (self.yaw_thruster.output_enabled && self.yaw_thruster.active_thruster
                == YawThruster::Starboard),
    {
        match self.yaw_thruster.get_active_thruster() {
            YawThruster::Starboard => self.yaw_thruster.is_enabled(),
            _ => false,
        }
    }

    /// Whether drive is routed to the port yaw thruster.
    pub fn get_port_state(&self) -> (r: bool)
        ensures
            r == (self.yaw_thruster.output_enabled && self.yaw_thruster.active_thruster
                == YawThruster::Port),
    {
        match self.yaw_thruster.get_active_thruster() {
            YawThruster::Port => self.yaw_thruster.is_enabled(),
            _ => false,
        }
    }
}

impl Tick for Propulsion {
    fn tick(&mut self, tick_count: u32)
        ensures
            *final(self) == old(self).spec_tick(),
            old(self).well_formed() ==> final(self).well_formed(),
    {
        self.aft_thruster.tick(tick_count);
        self.yaw_thruster.tick(tick_count);
    }
}

} // verus!
