//! The ballast valve state machine.
//!
//! Two solenoid outputs (intake and discharge) must never be high at the
//! same time.  Every commanded change routes through a one-tick `Transition`
//! state during which both outputs are forced low, so the machine can be
//! re-targeted at any moment without ever shorting the two valves.

use vstd::prelude::*;
use crate::command::commands::BallastCommand;
use crate::config::hardware::ballast::BallastConfig;
use crate::error::PeripheralInitError;
use crate::traits::Tick;

verus! {

/// Valve state: three steady states and the transient all-off state every
/// commanded change passes through.
#[derive(Debug, Copy, Clone, PartialEq, Eq, Structural)]
pub enum BallastState {
    Discharge,
    Intake,
    Idle,
    Transition,
}

/// One input to the ballast machine: a commanded target or one tick of the
/// control loop.
#[derive(Debug, Copy, Clone, PartialEq, Eq, Structural)]
pub enum BallastEvent {
    Command(BallastCommand),
    Tick,
}

/// The ballast actuator.  The two booleans model the valve pin levels; the
/// host process mirrors them onto the GPIO lines after every tick.
#[derive(Debug, Copy, Clone, PartialEq, Eq, Structural)]
pub struct Ballast {
    pub discharge_pin_high: bool,
    pub intake_pin_high: bool,
    pub target_state: BallastState,
    pub state: BallastState,
}

/// The steady state a ballast command asks for.
pub open spec fn spec_commanded_state(cmd: BallastCommand) -> BallastState {
    match cmd {
        BallastCommand::Idle => BallastState::Idle,
        BallastCommand::Intake => BallastState::Intake,
        BallastCommand::Discharge => BallastState::Discharge,
    }
}

impl Ballast {
    /// The valves are never both open.
    pub open spec fn no_short(self) -> bool {
        !(self.intake_pin_high && self.discharge_pin_high)
    }

    /// The state after handling a command: always one tick of `Transition`
    /// first, whatever was in flight; the pins move only on ticks.
    pub open spec fn spec_handle_command(self, cmd: BallastCommand) -> Self {
        Ballast {
            state: BallastState::Transition,
            target_state: spec_commanded_state(cmd),
            ..self
        }
    }

    /// The state after one tick: a steady state drives its pins, the
    /// transition state forces both pins low and then enters the target.
    pub open spec fn spec_tick(self) -> Self {
        match self.state {
            BallastState::Idle => Ballast {
                discharge_pin_high: false,
                intake_pin_high: false,
                ..self
            },
            BallastState::Intake => Ballast {
                intake_pin_high: true,
                discharge_pin_high: false,
                ..self
            },
            BallastState::Discharge => Ballast {
                intake_pin_high: false,
                discharge_pin_high: true,
                ..self
            },
            BallastState::Transition => Ballast {
                discharge_pin_high: false,
                intake_pin_high: false,
                state: self.target_state,
                ..self
            },
        }
    }

    /// The state after one event of either kind.
    pub open spec fn spec_step(self, event: BallastEvent) -> Self {
        match event {
            BallastEvent::Command(cmd) => self.spec_handle_command(cmd),
            BallastEvent::Tick => self.spec_tick(),
        }
    }

    /// The state after a whole sequence of events, applied left to right.
    pub open spec fn spec_run(self, events: Seq<BallastEvent>) -> Self
        decreases events.len(),
    {
        if events.len() == 0 {
            self
        } else {
            self.spec_step(events[0]).spec_run(events.drop_first())
        }
    }

    /// A ballast machine at rest: idle, both valves closed.
    pub fn new(_config: &BallastConfig) -> (r: Result<Ballast, PeripheralInitError>)
        ensures
            match r {
                Ok(b) => {
                    &&& b.state == BallastState::Idle
                    &&& b.target_state == BallastState::Idle
                    &&& !b.discharge_pin_high
                    &&& !b.intake_pin_high
                },
                Err(_) => false,
            },
    {
        Ok(
            Ballast {
                discharge_pin_high: false,
                intake_pin_high: false,
                state: BallastState::Idle,
                target_state: BallastState::Idle,
            },
        )
    }

    /// Take a commanded target.  The pins do not move here; the next tick
    /// forces both low before the new steady state is entered.
    pub fn handle_command(&mut self, cmd: &BallastCommand)
        ensures
            *final(self) == old(self).spec_handle_command(*cmd),
            final(self).state == BallastState::Transition,
    {
        match cmd {
            BallastCommand::Idle => self.set_idle_state(),
            BallastCommand::Intake => self.set_intake_state(),
            BallastCommand::Discharge => self.set_discharge_state(),
        }
    }

    fn set_discharge_state(&mut self)
        ensures
            *final(self) == (Ballast {
                state: BallastState::Transition,
                target_state: BallastState::Discharge,
                ..*old(self)
            }),
    {
        self.state = BallastState::Transition;
        self.target_state = BallastState::Discharge;
    }

    fn set_intake_state(&mut self)
        ensures
            *final(self) == (Ballast {
                state: BallastState::Transition,
                target_state: BallastState::Intake,
                ..*old(self)
            }),
    {
        self.state = BallastState::Transition;
        self.target_state = BallastState::Intake;
    }

    fn set_idle_state(&mut self)
        ensures
            *final(self) == (Ballast {
                state: BallastState::Transition,
                target_state: BallastState::Idle,
                ..*old(self)
            }),
    {
        self.state = BallastState::Transition;
        self.target_state = BallastState::Idle;
    }

    fn stop_all(&mut self)
        ensures
            *final(self) == (Ballast {
                discharge_pin_high: false,
                intake_pin_high: false,
                ..*old(self)
            }),
    {
        self.discharge_pin_high = false;
        self.intake_pin_high = false;
    }

    /// The state the machine is in now.
    pub fn get_current_state(&self) -> (r: BallastState)
        ensures
            r == self.state,
    {
        self.state
    }

    /// The steady state the machine is heading for.
    pub fn get_target_state(&self) -> (r: BallastState)
        ensures
            r == self.target_state,
    {
        self.target_state
    }
}

impl BallastState {
    /// The wire encoding of a ballast state in telemetry packets.
    pub open spec fn spec_as_byte(self) -> u8 {
        match self {
            BallastState::Discharge => 0,
            BallastState::Intake => 1,
            BallastState::Idle => 2,
            BallastState::Transition => 3,
        }
    }

    /// The wire encoding of a ballast state in telemetry packets.
    pub fn as_byte(self) -> (r: u8)
        ensures
            r == self.spec_as_byte(),
    {
        match self {
            BallastState::Discharge => 0,
            BallastState::Intake => 1,
            BallastState::Idle => 2,
            BallastState::Transition => 3,
        }
    }
}

impl Tick for Ballast {
    /// One tick of the valve machine.  The contract carries the safety
    /// property directly: after any tick the valves are not shorted, and a
    /// tick taken in `Transition` - which is the very next tick after any
    /// command - leaves both outputs low.
    fn tick(&mut self, _tick_count: u32)
        ensures
            *final(self) == old(self).spec_tick(),
            final(self).no_short(),
            old(self).state == BallastState::Transition ==> !final(self).intake_pin_high
                && !final(self).discharge_pin_high,
    {
        if self.state == BallastState::Transition {
            self.stop_all();
        }

        match self.state {
            BallastState::Idle => self.stop_all(),
            BallastState::Intake => {
                self.intake_pin_high = true;
                self.discharge_pin_high = false;
            },
            BallastState::Discharge => {
                self.intake_pin_high = false;
                self.discharge_pin_high = true;
            },
            BallastState::Transition => {
                self.state = self.target_state;
            },
        }
    }
}

/// The no-short property over whole histories: starting from any state with
/// the valves not shorted, no sequence of commands and ticks ever reaches a
/// state with both valve outputs high.
pub proof fn lemma_ballast_no_short(b: Ballast, events: Seq<BallastEvent>)
    requires
        b.no_short(),
    ensures
        b.spec_run(events).no_short(),
    decreases events.len(),
{
    if events.len() > 0 {
        lemma_ballast_no_short(b.spec_step(events[0]), events.drop_first());
    }
}

/// Immediately after any state-changing command, the very next tick leaves
/// both valve outputs low.
pub proof fn lemma_ballast_off_tick_after_command(b: Ballast, cmd: BallastCommand)
    ensures
        !b.spec_handle_command(cmd).spec_tick().intake_pin_high,
        !b.spec_handle_command(cmd).spec_tick().discharge_pin_high,
{
}

} // verus!
