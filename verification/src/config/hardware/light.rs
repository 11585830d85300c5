//! Light pin assignment.

use vstd::prelude::*;

verus! {

/// Light subsystem configuration.
#[derive(Debug, Copy, Clone, PartialEq, Eq, Structural)]
pub struct LightConfig {
    pub gpio: LightGpioConfig,
}

/// The light enable pin.
#[derive(Debug, Copy, Clone, PartialEq, Eq, Structural)]
pub struct LightGpioConfig {
    pub light_pin: u8,
}

} // verus!
