//! The light: on, off, or blinking on a fixed cadence.

use vstd::prelude::*;
use crate::command::commands::LightCommand;
use crate::config::hardware::light::LightConfig;
use crate::error::PeripheralInitError;
use crate::traits::Tick;

verus! {

/// Commanded light mode.
#[derive(Debug, Copy, Clone, PartialEq, Eq, Structural)]
pub enum LightState {
    On,
    Off,
    Blink,
}

/// The light actuator.  `en_pin_high` models the enable pin level; the host
/// process mirrors it onto the GPIO line after every tick.
#[derive(Debug, Copy, Clone, PartialEq, Eq, Structural)]
pub struct Light {
    pub en_pin_high: bool,
    pub state: LightState,
}

impl Light {
    /// The state after one tick: steady modes drive the pin level, blink
    /// toggles it every tenth tick.
    pub open spec fn spec_tick(self, tick_count: u32) -> Self {
        match self.state {
            LightState::Off => Light { en_pin_high: false, ..self },
            LightState::On => Light { en_pin_high: true, ..self },
            LightState::Blink => {
                if tick_count % 10 == 0 {
                    Light { en_pin_high: !self.en_pin_high, ..self }
                } else {
                    self
                }
            },
        }
    }

    /// A light that is off.
    pub fn new(_config: &LightConfig) -> (r: Result<Light, PeripheralInitError>)
        ensures
            match r {
                Ok(l) => {
                    &&& l.state == LightState::Off
                    &&& !l.en_pin_high
                },
                Err(_) => false,
            },
    {
        Ok(Light { en_pin_high: false, state: LightState::Off })
    }

    /// Take a commanded mode; the pin moves on the next tick.
    pub fn handle_command(&mut self, cmd: &LightCommand)
        ensures
            *final(self) == (Light {
                state: match *cmd {
                    LightCommand::Off => LightState::Off,
                    LightCommand::On => LightState::On,
                    LightCommand::Blink => LightState::Blink,
                },
                ..*old(self)
            }),
    {
        match cmd {
            LightCommand::Off => self.turn_off(),
            LightCommand::On => self.turn_on(),
            LightCommand::Blink => self.blink(),
        }
    }

    fn turn_on(&mut self)
        ensures
            *final(self) == (Light { state: LightState::On, ..*old(self) }),
    {
        self.state = LightState::On;
    }

    fn turn_off(&mut self)
        ensures
            *final(self) == (Light { state: LightState::Off, ..*old(self) }),
    {
        self.state = LightState::Off;
    }

    fn blink(&mut self)
        ensures
            *final(self) == (Light { state: LightState::Blink, ..*old(self) }),
    {
        self.state = LightState::Blink;
    }
}

impl Tick for Light {
    fn tick(&mut self, tick_count: u32)
        ensures
            *final(self) == old(self).spec_tick(tick_count),
    {
        match self.state {
            LightState::Off => {
                self.en_pin_high = false;
            },
            LightState::On => {
                self.en_pin_high = true;
            },
            LightState::Blink => {
                if tick_count % 10 == 0 {
                    self.en_pin_high = !self.en_pin_high;
                }
            },
        }
    }
}

} // verus!
