//! The yaw thruster pair: two ramp-limited controllers behind one shared
//! direction-select line, with a zero-crossing handoff rule.
//!
//! Reversing the direction-select line while the active thruster still
//! carries current would spike the driver, so the selector first ramps the
//! active side to zero and only then hands the line to the new side.  The
//! sign convention is: positive yaw thrust selects the port thruster (the
//! select line high), negative selects starboard (line low).

use vstd::prelude::*;
use crate::config::hardware::propulsion::PropulsionConfig;
use crate::definitions::UNIT_MICROS;
use crate::error::PeripheralInitError;
use crate::traits::Tick;
use super::ThrusterController;
use super::thruster::Thruster;

verus! {

/// Which physical yaw thruster is meant to run.
#[derive(Debug, Copy, Clone, PartialEq, Eq, Structural)]
pub enum YawThruster {
    Port,
    Starboard,
    /// No yaw authority: both thrusters are commanded to zero.
    Inactive,
}

/// One input to the yaw selector: a commanded thruster or set-point, or
/// one tick of the control loop.
#[derive(Debug, Copy, Clone, PartialEq, Eq, Structural)]
pub enum YawEvent {
    SetThruster(YawThruster),
    SetDutyCycle(u32),
    Tick,
}

/// The yaw selector: one ramp-limited controller per thruster, the shared
/// direction-select line (`switch_high`, high selects port), and the
/// handoff state.
#[derive(Debug, Copy, Clone, PartialEq, Eq, Structural)]
pub struct YawThrusterController {
    pub port: Thruster,
    pub starboard: Thruster,
    pub switch_high: bool,
    pub target_duty_cycle: u32,
    pub active_thruster: YawThruster,
    pub target_thruster: YawThruster,
    pub output_enabled: bool,
}

impl YawThrusterController {
    /// The selector's invariant: the controllers are sound and always
    /// ramping, the set-point is within one unit, every thruster that is
    /// not active is fully at rest, and the select line agrees with the
    /// active thruster.
    pub open spec fn well_formed(self) -> bool {
        &&& self.port.well_formed()
        &&& self.starboard.well_formed()
        &&& self.port.enabled
        &&& self.starboard.enabled
        &&& self.target_duty_cycle <= UNIT_MICROS
        &&& self.active_thruster != YawThruster::Port ==> self.port.current_duty_cycle == 0
            && self.port.target_duty_cycle == 0
        &&& self.active_thruster != YawThruster::Starboard
            ==> self.starboard.current_duty_cycle == 0 && self.starboard.target_duty_cycle == 0
        &&& self.active_thruster == YawThruster::Port ==> self.switch_high
        &&& self.active_thruster == YawThruster::Starboard ==> !self.switch_high
    }

    /// The duty cycle the active thruster's output reports.
    pub open spec fn spec_active_duty(self) -> u32 {
        match self.active_thruster {
            YawThruster::Port => self.port.current_duty_cycle,
            YawThruster::Starboard => self.starboard.current_duty_cycle,
            YawThruster::Inactive => 0,
        }
    }

    /// The state after one tick.  While a handoff is pending both ramps aim
    /// at zero and the line is handed over once the active side reports
    /// zero; otherwise the active side's ramp aims at the set-point.  The
    /// select line and the output gate follow the (possibly new) active
    /// thruster.
    pub open spec fn spec_tick(self) -> Self {
        let handing_over = self.active_thruster != self.target_thruster;
        let set_point: u32 = if self.target_duty_cycle > UNIT_MICROS {
            UNIT_MICROS
        } else {
            self.target_duty_cycle
        };
        let port_target: u32 = if !handing_over && self.active_thruster == YawThruster::Port {
            set_point
        } else {
            0
        };
        let starboard_target: u32 = if !handing_over && self.active_thruster
            == YawThruster::Starboard {
            set_point
        } else {
            0
        };
        let new_active = if handing_over && self.spec_active_duty() == 0 {
            self.target_thruster
        } else {
            self.active_thruster
        };
        YawThrusterController {
            port: (Thruster { target_duty_cycle: port_target, ..self.port }).spec_tick(),
            starboard: (Thruster {
                target_duty_cycle: starboard_target,
                ..self.starboard
            }).spec_tick(),
            active_thruster: new_active,
            switch_high: match new_active {
                YawThruster::Port => true,
                YawThruster::Starboard => false,
                YawThruster::Inactive => self.switch_high,
            },
            output_enabled: new_active != YawThruster::Inactive,
            ..self
        }
    }

    /// A selector at rest: no active thruster, line low, both controllers
    /// quiet with the configured ramp caps.
    pub fn new(config: &PropulsionConfig) -> (r: Result<
        YawThrusterController,
        PeripheralInitError,
    >)
        ensures
            match r {
                Ok(y) => {
                    &&& y.well_formed()
                    &&& y.active_thruster == YawThruster::Inactive
                    &&& y.target_thruster == YawThruster::Inactive
                    &&& y.target_duty_cycle == 0
                    &&& !y.switch_high
                    &&& !y.output_enabled
                    &&& y.port.current_duty_cycle == 0
                    &&& y.starboard.current_duty_cycle == 0
                    &&& y.port.step_up_limit == config.thrust_step_up
                    &&& y.port.step_down_limit == config.thrust_step_down
                    &&& y.starboard.step_up_limit == config.thrust_step_up
                    &&& y.starboard.step_down_limit == config.thrust_step_down
                },
                Err(_) => false,
            },
    {
        let port = Thruster::new(config)?;
        let starboard = Thruster::new(config)?;
        Ok(
            YawThrusterController {
                port,
                starboard,
                switch_high: false,
                target_duty_cycle: 0,
                active_thruster: YawThruster::Inactive,
                target_thruster: YawThruster::Inactive,
                output_enabled: false,
            },
        )
    }

    /// Choose which thruster should run; the handoff itself happens on
    /// later ticks, once the currently active side has decayed to zero.
    pub fn set_thruster(&mut self, thruster: YawThruster)
        ensures
            *final(self) == (YawThrusterController {
                target_thruster: thruster,
                ..*old(self)
            }),
            old(self).well_formed() ==> final(self).well_formed(),
    {
        self.target_thruster = thruster;
    }

    /// The thruster the select line currently routes drive to.
    pub fn get_active_thruster(&self) -> (r: YawThruster)
        ensures
            r == self.active_thruster,
    {
        self.active_thruster
    }

    /// The duty cycle the active thruster's output reports.
    pub fn get_current_duty_cycle(&self) -> (r: u32)
        ensures
            r == self.spec_active_duty(),
    {
        match self.active_thruster {
            YawThruster::Port => self.port.get_current_duty_cycle(),
            YawThruster::Starboard => self.starboard.get_current_duty_cycle(),
            YawThruster::Inactive => 0,
        }
    }

    /// The selector's own set-point for whichever thruster is active.
    pub fn get_target_duty_cycle(&self) -> (r: u32)
        ensures
            r == self.target_duty_cycle,
    {
        self.target_duty_cycle
    }

    fn update(&mut self)
        ensures
            *final(self) == old(self).spec_tick(),
            old(self).well_formed() ==> final(self).well_formed(),
    {
        if !yaw_thruster_eq(self.active_thruster, self.target_thruster) {
            self.port.set_target_duty_cycle(0);
            self.starboard.set_target_duty_cycle(0);
            if self.get_current_duty_cycle() == 0 {
                self.active_thruster = self.target_thruster;
            }
        } else {
            match self.active_thruster {
                YawThruster::Port => {
                    let duty = self.target_duty_cycle;
                    self.port.set_target_duty_cycle(duty);
                    self.starboard.set_target_duty_cycle(0);
                },
                YawThruster::Starboard => {
                    let duty = self.target_duty_cycle;
                    self.starboard.set_target_duty_cycle(duty);
                    self.port.set_target_duty_cycle(0);
                },
                YawThruster::Inactive => {
                    self.port.set_target_duty_cycle(0);
                    self.starboard.set_target_duty_cycle(0);
                },
            }
        }

        self.port.tick(0);
        self.starboard.tick(0);

        match self.active_thruster {
            YawThruster::Port => {
                self.output_enabled = true;
                self.switch_high = true;
            },
            YawThruster::Starboard => {
                self.output_enabled = true;
                self.switch_high = false;
            },
            YawThruster::Inactive => {
                self.output_enabled = false;
            },
        }
    }
}

/// Whether two thruster selections name the same thruster.
fn yaw_thruster_eq(a: YawThruster, b: YawThruster) -> (r: bool)
    ensures
        r == (a == b),
{
    match (a, b) {
        (YawThruster::Port, YawThruster::Port) => true,
        (YawThruster::Starboard, YawThruster::Starboard) => true,
        (YawThruster::Inactive, YawThruster::Inactive) => true,
        _ => false,
    }
}

impl Tick for YawThrusterController {
    /// One tick of the selector.  Beyond the step itself, the contract
    /// carries the reversal-safety property: whenever the direction-select
    /// line changes level, both thrusters' outputs were at zero.
    fn tick(&mut self, _tick_count: u32)
        ensures
            *final(self) == old(self).spec_tick(),
            old(self).well_formed() ==> final(self).well_formed(),
            old(self).well_formed() && final(self).switch_high != old(self).switch_high
                ==> old(self).port.current_duty_cycle == 0
                && old(self).starboard.current_duty_cycle == 0,
    {
        self.update();
    }
}

impl YawThrusterController {
    /// The state after one event of any kind; commands saturate at one
    /// unit exactly as the methods do.
    pub open spec fn spec_step(self, event: YawEvent) -> Self {
        match event {
            YawEvent::SetThruster(t) => YawThrusterController { target_thruster: t, ..self },
            YawEvent::SetDutyCycle(d) => YawThrusterController {
                target_duty_cycle: if d > UNIT_MICROS {
                    UNIT_MICROS
                } else {
                    d
                },
                ..self
            },
            YawEvent::Tick => self.spec_tick(),
        }
    }

    /// The state after a whole sequence of events, applied left to right.
    pub open spec fn spec_run(self, events: Seq<YawEvent>) -> Self
        decreases events.len(),
    {
        if events.len() == 0 {
            self
        } else {
            self.spec_step(events[0]).spec_run(events.drop_first())
        }
    }
}

/// Well-formedness survives any sequence of commands and ticks.
pub proof fn lemma_yaw_well_formed_run(y: YawThrusterController, events: Seq<YawEvent>)
    requires
        y.well_formed(),
    ensures
        y.spec_run(events).well_formed(),
    decreases events.len(),
{
    if events.len() > 0 {
        match events[0] {
            YawEvent::Tick => lemma_yaw_switch_only_at_zero(y),
            _ => {},
        }
        lemma_yaw_well_formed_run(y.spec_step(events[0]), events.drop_first());
    }
}

/// Yaw reversal safety over whole histories: starting well formed, no
/// sequence of commands and ticks - commanding port and then immediately
/// starboard included - ever contains a step that changes the
/// direction-select line while either thruster's output is above zero.
pub proof fn lemma_yaw_no_switch_under_load(
    y: YawThrusterController,
    events: Seq<YawEvent>,
    i: int,
)
    requires
        y.well_formed(),
        0 <= i < events.len(),
    ensures
        ({
            let before = y.spec_run(events.take(i));
            let after = before.spec_step(events[i]);
            after.switch_high != before.switch_high ==> before.port.current_duty_cycle == 0
                && before.starboard.current_duty_cycle == 0
        }),
{
    lemma_yaw_run_take_well_formed(y, events, i);
    let before = y.spec_run(events.take(i));
    match events[i] {
        YawEvent::Tick => lemma_yaw_switch_only_at_zero(before),
        _ => {},
    }
}

/// Helper: the state after any prefix of events is still well formed.
proof fn lemma_yaw_run_take_well_formed(
    y: YawThrusterController,
    events: Seq<YawEvent>,
    i: int,
)
    requires
        y.well_formed(),
        0 <= i <= events.len(),
    ensures
        y.spec_run(events.take(i)).well_formed(),
{
    lemma_yaw_well_formed_run(y, events.take(i));
}

/// Yaw reversal safety, stated over the step function itself: from any
/// well-formed selector state, a tick that changes the direction-select
/// line finds both thrusters' outputs at zero, and the step preserves
/// well-formedness.  Commanding port and then immediately starboard can
/// therefore never reverse the line under load: every line change waits
/// for the ramp to reach zero.
pub proof fn lemma_yaw_switch_only_at_zero(y: YawThrusterController)
    requires
        y.well_formed(),
    ensures
        y.spec_tick().switch_high != y.switch_high ==> y.port.current_duty_cycle == 0
            && y.starboard.current_duty_cycle == 0,
        y.spec_tick().well_formed(),
{
}

impl ThrusterController for YawThrusterController {
    /// Point the selector at a new set-point; values above one unit
    /// saturate.
    fn set_duty_cycle(&mut self, duty_cycle: u32)
        ensures
            *final(self) == (YawThrusterController {
                target_duty_cycle: if duty_cycle > UNIT_MICROS {
                    UNIT_MICROS
                } else {
                    duty_cycle
                },
                ..*old(self)
            }),
            old(self).well_formed() ==> final(self).well_formed(),
    {
        let clamped: u32 = if duty_cycle > UNIT_MICROS {
            UNIT_MICROS
        } else {
            duty_cycle
        };
        self.target_duty_cycle = clamped;
    }

    fn enable(&mut self, en: bool)
        ensures
            *final(self) == (YawThrusterController { output_enabled: en, ..*old(self) }),
            old(self).well_formed() ==> final(self).well_formed(),
    {
        self.output_enabled = en;
    }

    fn is_enabled(&self) -> (r: bool)
        ensures
            r == self.output_enabled,
    {
        self.output_enabled
    }
}

} // verus!
