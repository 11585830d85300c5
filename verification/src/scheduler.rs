//! Per-tick orchestration of the control loop.
//!
//! The host process owns the loop itself - measuring time, sleeping out the
//! tick budget and watching the shutdown flag - and calls `run_tick` once
//! per iteration.  Everything that happens inside a tick, and its order, is
//! decided and verified here: stamp the tick count, take the previous
//! tick's timing, dispatch at most one queued command, tick every actuator
//! (so a command applied this tick shows in this tick's outputs), collect
//! telemetry from the new state, and build the packets for the transport.

use vstd::prelude::*;
use crate::command::CommandQueue;
use crate::command::dispatch::spec_dispatch;
use crate::hardware_model::Submarine;
use crate::telemetry::Telemetry;
use crate::traits::Tick;

verus! {

/// The tick period in milliseconds for a configured tick rate.
pub fn tick_interval_millis(tick_rate: u8) -> (r: u64)
    requires
        tick_rate >= 1,
    ensures
        r == 1000int / tick_rate as int,
{
    1000u64 / (tick_rate as u64)
}

/// How long the loop should sleep after a tick that ran for
/// `tick_delta_micros`: the rest of the budget, or nothing if the budget
/// was missed - the loop never skips ticks to catch up.
pub fn compute_idle_micros(tick_interval_micros: u32, tick_delta_micros: u32) -> (r: u32)
    ensures
        r == if tick_delta_micros > tick_interval_micros {
            0u32
        } else {
            (tick_interval_micros - tick_delta_micros) as u32
        },
{
    if tick_delta_micros > tick_interval_micros {
        0
    } else {
        tick_interval_micros - tick_delta_micros
    }
}

/// One whole tick.  `tick_delta_micros` and `idle_micros` describe the
/// previous tick and only feed the system telemeter.  Returns the packets
/// to hand to the transport; an empty list while the pipeline is gated.
pub fn run_tick(
    sub: &mut Submarine,
    telem: &mut Telemetry,
    queue: &mut CommandQueue,
    tick_count: u32,
    tick_delta_micros: u32,
    idle_micros: u32,
) -> (packets: Vec<Vec<u8>>)
    ensures
        ({
            let dispatched = if old(queue)@.len() > 0 {
                spec_dispatch(*old(sub), old(queue)@[0])
            } else {
                *old(sub)
            };
            let ticked = dispatched.spec_tick(tick_count);
            let stamped = Telemetry { tick_count, ..*old(telem) };
            let collected = stamped.spec_collect_system(
                tick_delta_micros,
                idle_micros,
            ).spec_collect_hw(ticked);
            &&& *final(sub) == ticked
            &&& *final(telem) == collected
            &&& final(queue)@ == if old(queue)@.len() > 0 {
                old(queue)@.drop_first()
            } else {
                old(queue)@
            }
            &&& (collected.enabled && collected.emitter_ready ==> packets.deep_view()
                == collected.spec_emitted_packets())
            &&& (!(collected.enabled && collected.emitter_ready) ==> packets@.len() == 0)
            &&& (old(sub).well_formed() ==> final(sub).well_formed())
        }),
{
    telem.set_tick_count(tick_count);
    telem.collect_system_telemetry(tick_delta_micros, idle_micros);

    crate::command::dispatch(sub, queue);
    sub.tick(tick_count);

    telem.collect_hw_telemetry(sub);
    telem.emit_telemetry()
}

} // verus!
