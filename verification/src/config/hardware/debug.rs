//! Debug LED pin assignment.

use vstd::prelude::*;

verus! {

/// Debug aid configuration.
#[derive(Debug, Copy, Clone, PartialEq, Eq, Structural)]
pub struct DebugConfig {
    pub gpio: DebugGpioConfig,
}

/// The debug LED pin.
#[derive(Debug, Copy, Clone, PartialEq, Eq, Structural)]
pub struct DebugGpioConfig {
    pub debug_led_pin: u8,
}

} // verus!
