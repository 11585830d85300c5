//! The modeled vehicle: every actuator and sensor as verified state, with
//! pin levels as plain booleans that the host process mirrors onto the
//! physical outputs after every tick.

pub mod ballast;
pub mod dht11;
pub mod light;
pub mod propulsion;

use vstd::prelude::*;
use crate::config::hardware::HardwareConfig;
use crate::error::PeripheralInitError;
use crate::traits::Tick;
use ballast::Ballast;
use dht11::Dht11;
use light::Light;
use propulsion::Propulsion;

verus! {

/// The whole vehicle.
pub struct Submarine {
    pub ballast: Ballast,
    pub light: Light,
    pub propulsion: Propulsion,
    pub dht11: Dht11,
}

impl Submarine {
    /// Every subsystem's invariant holds and the valves are not shorted.
    pub open spec fn well_formed(self) -> bool {
        &&& self.propulsion.well_formed()
        &&& self.ballast.no_short()
        &&& self.dht11.sample_interval >= 1
    }

    /// The vehicle after one tick of every actuator.
    pub open spec fn spec_tick(self, tick_count: u32) -> Self {
        Submarine {
            ballast: self.ballast.spec_tick(),
            light: self.light.spec_tick(tick_count),
            propulsion: self.propulsion.spec_tick(),
            ..self
        }
    }

    /// A vehicle at rest: valves closed, light off, thrusters quiet, no
    /// sensor sample yet.
    pub fn new(config: &HardwareConfig) -> (r: Result<Submarine, PeripheralInitError>)
        requires
            config.temperature.sample_interval >= 1,
        ensures
            match r {
                Ok(s) => {
                    &&& s.well_formed()
                    &&& s.ballast.state == ballast::BallastState::Idle
                    &&& !s.ballast.intake_pin_high
                    &&& !s.ballast.discharge_pin_high
                    &&& s.light.state == light::LightState::Off
                    &&& s.propulsion.vector == (crate::definitions::DirectionVector {
                        x_micros: 0,
                        y_micros: 0,
                    })
                    &&& !s.dht11.last_read_valid
                },
                Err(_) => false,
            },
    {
        Ok(
            Submarine {
                ballast: Ballast::new(&config.ballast)?,
                light: Light::new(&config.light)?,
                propulsion: Propulsion::new(&config.propulsion)?,
                dht11: Dht11::new(&config.temperature)?,
            },
        )
    }
}

impl Tick for Submarine {
    /// One tick of every actuator.  The sensor is not read here: its
    /// signalling needs the host process, which asks `dht11.should_sample`
    /// and feeds `dht11.ingest_sample` between ticks.
    fn tick(&mut self, tick_count: u32)
        ensures
            *final(self) == old(self).spec_tick(tick_count),
            old(self).well_formed() ==> final(self).well_formed(),
    {
        self.ballast.tick(tick_count);
        self.light.tick(tick_count);
        self.propulsion.tick(tick_count);
    }
}

} // verus!
