//! Pin assignments and per-actuator tuning.

pub mod ballast;
pub mod debug;
pub mod dht11;
pub mod light;
pub mod propulsion;
pub mod temperature;

use vstd::prelude::*;
use ballast::BallastConfig;
use light::LightConfig;
use propulsion::PropulsionConfig;
use temperature::TemperatureConfig;

verus! {

/// Hardware configuration of every subsystem.
#[derive(Debug, Clone, PartialEq, Eq, Structural)]
pub struct HardwareConfig {
    pub ballast: BallastConfig,
    pub light: LightConfig,
    pub propulsion: PropulsionConfig,
    pub temperature: TemperatureConfig,
}

} // verus!
