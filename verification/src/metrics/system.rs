//! Tick timing accumulators, in microseconds.

use vstd::prelude::*;

verus! {

/// How long the most recent tick ran and idled.
#[derive(Debug, Copy, Clone, PartialEq, Eq, Structural)]
pub struct System {
    pub tick_delta: u32,
    pub tick_idle_time: u32,
    pub total_tick_time: u32,
}

impl System {
    /// Zeroed timing; the arguments describe the tick the caller is in and
    /// are not recorded until `ingest_tick`.
    pub fn new(_tick_count: u32, _delay: u32, _delta: u32) -> (r: System)
        ensures
            r.tick_delta == 0,
            r.tick_idle_time == 0,
            r.total_tick_time == 0,
    {
        System { tick_delta: 0, tick_idle_time: 0, total_tick_time: 0 }
    }

    /// Record one tick: run time `delta`, idle time `delay`; their sum
    /// saturates instead of wrapping.
    pub fn ingest_tick(&mut self, delay: u32, delta: u32)
        ensures
            final(self).tick_delta == delta,
            final(self).tick_idle_time == delay,
            final(self).total_tick_time == if delay + delta > u32::MAX {
                u32::MAX
            } else {
                (delay + delta) as u32
            },
    {
        self.tick_delta = delta;
        self.tick_idle_time = delay;
        self.total_tick_time = if delay > u32::MAX - delta {
            u32::MAX
        } else {
            delay + delta
        };
    }
}

} // verus!
