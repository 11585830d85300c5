//! The command protocol: framing, decoding, the command queue and dispatch.

pub mod commands;
pub mod dispatch;
pub mod serde;

use vstd::prelude::*;
use vstd::std_specs::vecdeque::VecDequeAdditionalSpecFns;
use std::collections::VecDeque;
use commands::{BallastCommand, LightCommand, PropulsionCommand};
use commands::{spec_ballast_decode, spec_light_decode, spec_propulsion_decode};
use serde::{Serde, spec_frame_valid, spec_module_for_id};
use serde::{COMMAND_BUFFER_SIZE, validate_command_structure};

verus! {

/// The subsystems that can be addressed by a command frame.
#[derive(Debug, Copy, Clone, PartialEq, Eq, Structural)]
pub enum Module {
    Ballast,
    Light,
    Propulsion,
}

/// One decoded command, tagged with the subsystem that owns it.
#[derive(Debug, Copy, Clone, PartialEq, Eq, Structural)]
pub enum Command {
    Ballast(BallastCommand),
    Light(LightCommand),
    Propulsion(PropulsionCommand),
}

/// The command a whole frame decodes to: `None` when the structure check
/// fails or the payload does not decode for the addressed subsystem.
pub open spec fn spec_decode_frame(buffer: Seq<u8>) -> Option<Command> {
    if !spec_frame_valid(buffer) {
        None
    } else {
        let payload = buffer.subrange(2, COMMAND_BUFFER_SIZE - 1);
        match spec_module_for_id(buffer[1]) {
            Some(Module::Ballast) => match spec_ballast_decode(payload) {
                Some(c) => Some(Command::Ballast(c)),
                None => None,
            },
            Some(Module::Light) => match spec_light_decode(payload) {
                Some(c) => Some(Command::Light(c)),
                None => None,
            },
            Some(Module::Propulsion) => match spec_propulsion_decode(payload) {
                Some(c) => Some(Command::Propulsion(c)),
                None => None,
            },
            None => None,
        }
    }
}

/// Validate and decode one received frame.  Everything that is wrong with a
/// frame - bad structure, unknown module id, undecodable payload - answers
/// `None`; the listener drops such frames and keeps serving.
pub fn decode_frame(buffer: &[u8]) -> (r: Option<Command>)
    ensures
        r == spec_decode_frame(buffer@),
{
    if !validate_command_structure(buffer) {
        return None;
    }
    let payload: &[u8] = vstd::slice::slice_subrange(buffer, 2, COMMAND_BUFFER_SIZE - 1);
    let module = serde::module_for_id(buffer[1]);
    match module {
        Some(Module::Ballast) => match BallastCommand::deserialize(payload) {
            Ok(c) => Some(Command::Ballast(*c)),
            Err(()) => None,
        },
        Some(Module::Light) => match LightCommand::deserialize(payload) {
            Ok(c) => Some(Command::Light(*c)),
            Err(()) => None,
        },
        Some(Module::Propulsion) => match PropulsionCommand::deserialize(payload) {
            Ok(c) => Some(Command::Propulsion(*c)),
            Err(()) => None,
        },
        None => None,
    }
}

/// The FIFO of decoded commands shared by the listener (producer) and the
/// scheduler (consumer, at most one command per tick).
pub struct CommandQueue {
    queue: VecDeque<Command>,
}

impl View for CommandQueue {
    type V = Seq<Command>;

    closed spec fn view(&self) -> Seq<Command> {
        self.queue@
    }
}

impl CommandQueue {
    /// An empty queue.
    pub fn new() -> (q: CommandQueue)
        ensures
            q@ == Seq::<Command>::empty(),
    {
        CommandQueue { queue: VecDeque::new() }
    }

    /// Append one decoded command at the back.
    pub fn push_back(&mut self, command: Command)
        ensures
            final(self)@ == old(self)@.push(command),
    {
        self.queue.push_back(command);
    }

    /// Take the oldest queued command, if any.
    pub fn pop_front(&mut self) -> (r: Option<Command>)
        ensures
            match r {
                Some(c) => {
                    &&& old(self)@.len() > 0
                    &&& c == old(self)@[0]
                    &&& final(self)@ == old(self)@.subrange(1, old(self)@.len() as int)
                },
                None => {
                    &&& old(self)@.len() == 0
                    &&& final(self)@ == old(self)@
                },
            },
    {
        self.queue.pop_front()
    }

    /// Number of commands waiting.
    pub fn len(&self) -> (n: usize)
        ensures
            n == self@.len(),
    {
        self.queue.len()
    }
}

/// Dispatch the next queued command, if any, to the owning actuator.
pub fn dispatch(sub: &mut crate::hardware_model::Submarine, queue: &mut CommandQueue)
    ensures
        old(queue)@.len() == 0 ==> final(queue)@ == old(queue)@ && *final(sub) == *old(sub),
        old(queue)@.len() > 0 ==> final(queue)@ == old(queue)@.drop_first() && *final(sub)
            == dispatch::spec_dispatch(*old(sub), old(queue)@[0]),
        old(sub).well_formed() ==> final(sub).well_formed(),
{
    dispatch::dispatch_next_command(sub, queue);
}

} // verus!
