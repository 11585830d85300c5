//! Ballast valve pin assignments.

use vstd::prelude::*;

verus! {

/// Ballast subsystem configuration.
#[derive(Debug, Copy, Clone, PartialEq, Eq, Structural)]
pub struct BallastConfig {
    pub gpio: BallastGpioConfig,
}

/// The two valve control pins.
#[derive(Debug, Copy, Clone, PartialEq, Eq, Structural)]
pub struct BallastGpioConfig {
    pub intake_pin: u8,
    pub discharge_pin: u8,
}

} // verus!
