//! Thruster pin assignments and ramp tuning.

use vstd::prelude::*;

verus! {

/// Propulsion subsystem configuration.  The ramp step limits are in
/// millionths of full duty cycle per tick.
#[derive(Debug, Copy, Clone, PartialEq, Eq, Structural)]
pub struct PropulsionConfig {
    pub gpio: PropulsionGpioConfig,
    pub thrust_step_up: u32,
    pub thrust_step_down: u32,
}

/// The thruster control pins.
#[derive(Debug, Copy, Clone, PartialEq, Eq, Structural)]
pub struct PropulsionGpioConfig {
    pub aft_pin: u8,
    pub starboard_pin: u8,
    pub port_pin: u8,
    pub yaw_switch_pin: u8,
}

} // verus!
