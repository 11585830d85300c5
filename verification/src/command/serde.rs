//! Wire framing of one command and its structural validation.
//!
//! A command travels in a fixed 16-byte frame
//! `[start 0x0A] [module id] [payload, 13 bytes] [end 0x0F]`.

use vstd::prelude::*;
use super::Module;

verus! {

/// Total size of one command frame on the wire.
pub const COMMAND_BUFFER_SIZE: usize = 16;

/// Payload bytes carried by one frame (everything between the module id and
/// the end byte).
pub const COMMAND_PAYLOAD_SIZE: usize = 13;

/// First byte of every frame.
pub const COMMAND_BUFFER_START_BYTE: u8 = 0xA;

/// Last byte of every frame.
pub const COMMAND_BUFFER_END_BYTE: u8 = 0xF;

/// A payload decoder for one subsystem's command type.
pub trait Serde where Self: core::marker::Sized {
    fn deserialize(command_payload: &[u8]) -> Result<Box<Self>, ()>;
}

/// The subsystem a module id addresses, if the id is known.
pub open spec fn spec_module_for_id(id: u8) -> Option<Module> {
    if id == 0 {
        Some(Module::Ballast)
    } else if id == 1 {
        Some(Module::Propulsion)
    } else if id == 2 {
        Some(Module::Light)
    } else {
        None
    }
}

/// The subsystem registry: 0 ballast, 1 propulsion, 2 light.
pub fn module_for_id(id: u8) -> (r: Option<Module>)
    ensures
        r == spec_module_for_id(id),
{
    match id {
        0 => Some(Module::Ballast),
        1 => Some(Module::Propulsion),
        2 => Some(Module::Light),
        _ => None,
    }
}

/// A byte sequence is a structurally valid frame: exact frame length, the
/// start and end marker bytes in place, and a module id the registry knows.
pub open spec fn spec_frame_valid(buffer: Seq<u8>) -> bool {
    &&& buffer.len() == COMMAND_BUFFER_SIZE
    &&& buffer[0] == COMMAND_BUFFER_START_BYTE
    &&& buffer[COMMAND_BUFFER_SIZE - 1] == COMMAND_BUFFER_END_BYTE
    &&& spec_module_for_id(buffer[1]) is Some
}

/// Structural check of a received frame; a frame that fails it is discarded
/// before any payload decoding.
pub fn validate_command_structure(command_buffer: &[u8]) -> (r: bool)
    ensures
        r == spec_frame_valid(command_buffer@),
{
    if command_buffer.len() != COMMAND_BUFFER_SIZE {
        return false;
    }
    let start: u8 = command_buffer[0];
    let end: u8 = command_buffer[COMMAND_BUFFER_SIZE - 1];
    let module_id: u8 = command_buffer[1];

    if start != COMMAND_BUFFER_START_BYTE || end != COMMAND_BUFFER_END_BYTE {
        return false;
    }

    if module_for_id(module_id).is_none() {
        return false;
    }

    true
}

} // verus!
