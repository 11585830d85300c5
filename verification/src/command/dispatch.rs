//! Routing one queued command to the actuator that owns it.

use vstd::prelude::*;
use crate::hardware_model::Submarine;
use super::{Command, CommandQueue};

verus! {

/// The vehicle after a command is routed: exactly the addressed subsystem
/// takes the command, every other subsystem is untouched.
pub open spec fn spec_dispatch(sub: Submarine, command: Command) -> Submarine {
    match command {
        Command::Ballast(c) => Submarine { ballast: sub.ballast.spec_handle_command(c), ..sub },
        Command::Light(c) => Submarine {
            light: crate::hardware_model::light::Light {
                state: match c {
                    crate::command::commands::LightCommand::Off
                        => crate::hardware_model::light::LightState::Off,
                    crate::command::commands::LightCommand::On
                        => crate::hardware_model::light::LightState::On,
                    crate::command::commands::LightCommand::Blink
                        => crate::hardware_model::light::LightState::Blink,
                },
                ..sub.light
            },
            ..sub
        },
        Command::Propulsion(c) => Submarine {
            propulsion: sub.propulsion.spec_handle_command(c),
            ..sub
        },
    }
}

/// Pop at most one command off the queue and hand it to the one actuator
/// whose type matches.  Only the target's commanded state changes; the
/// physical outputs move on the actuators' own ticks.
pub fn dispatch_next_command(sub: &mut Submarine, queue: &mut CommandQueue)
    ensures
        old(queue)@.len() == 0 ==> final(queue)@ == old(queue)@ && *final(sub) == *old(sub),
        old(queue)@.len() > 0 ==> final(queue)@ == old(queue)@.drop_first() && *final(sub)
            == spec_dispatch(*old(sub), old(queue)@[0]),
        old(sub).well_formed() ==> final(sub).well_formed(),
{
    let next = queue.pop_front();

    match next {
        Some(command) => match command {
            Command::Ballast(c) => sub.ballast.handle_command(&c),
            Command::Light(c) => sub.light.handle_command(&c),
            Command::Propulsion(c) => sub.propulsion.handle_command(&c),
        },
        None => {},
    }
}

} // verus!
