//! The two small traits every driven component implements.

use vstd::prelude::*;

verus! {

/// A component that can be switched on and off.
pub trait SubmarineComponent {
    fn enable(&mut self);

    fn disable(&mut self);
}

/// A component driven once per iteration of the control loop.
pub trait Tick {
    fn tick(&mut self, tick_count: u32);
}

} // verus!
