//! Per-subsystem command values and their payload decoders.
//!
//! Every decoder is total: a payload that is too short or carries an unknown
//! selector byte is answered with `Err(())` instead of a panic, and each
//! decoder's contract states exactly which payloads decode to which command.

use vstd::prelude::*;
use vstd::bytes::{spec_u32_from_le_bytes, u32_from_le_bytes};
use vstd::slice::slice_subrange;
use crate::definitions::ThrustVector;
use super::serde::Serde;

verus! {

/// Ballast valve command, one byte: 0 idle, 1 intake, 2 discharge.
#[derive(Debug, Copy, Clone, PartialEq, Eq, Structural)]
pub enum BallastCommand {
    Idle,
    Intake,
    Discharge,
}

/// Light command, one byte: 0 off, 1 on, 2 blink.
#[derive(Debug, Copy, Clone, PartialEq, Eq, Structural)]
pub enum LightCommand {
    Off,
    On,
    Blink,
}

/// Propulsion command: a thrust set-point, eight payload bytes holding the
/// two little-endian IEEE-754 single-precision components, x then y.
#[derive(Debug, Copy, Clone, PartialEq, Eq, Structural)]
pub enum PropulsionCommand {
    SetThrust(ThrustVector),
}

/// The ballast command a payload decodes to, if any.
pub open spec fn spec_ballast_decode(payload: Seq<u8>) -> Option<BallastCommand> {
    if payload.len() < 1 {
        None
    } else if payload[0] == 0 {
        Some(BallastCommand::Idle)
    } else if payload[0] == 1 {
        Some(BallastCommand::Intake)
    } else if payload[0] == 2 {
        Some(BallastCommand::Discharge)
    } else {
        None
    }
}

/// The light command a payload decodes to, if any.
pub open spec fn spec_light_decode(payload: Seq<u8>) -> Option<LightCommand> {
    if payload.len() < 1 {
        None
    } else if payload[0] == 0 {
        Some(LightCommand::Off)
    } else if payload[0] == 1 {
        Some(LightCommand::On)
    } else if payload[0] == 2 {
        Some(LightCommand::Blink)
    } else {
        None
    }
}

/// The propulsion command a payload decodes to, if any: the first eight
/// bytes are kept bit-exactly as the two little-endian components.
pub open spec fn spec_propulsion_decode(payload: Seq<u8>) -> Option<PropulsionCommand> {
    if payload.len() < 8 {
        None
    } else {
        Some(
            PropulsionCommand::SetThrust(
                ThrustVector {
                    x_bits: spec_u32_from_le_bytes(payload.subrange(0, 4)),
                    y_bits: spec_u32_from_le_bytes(payload.subrange(4, 8)),
                },
            ),
        )
    }
}

/// The eight payload bytes that encode a thrust set-point.
pub open spec fn spec_thrust_payload(v: ThrustVector) -> Seq<u8> {
    vstd::bytes::spec_u32_to_le_bytes(v.x_bits) + vstd::bytes::spec_u32_to_le_bytes(v.y_bits)
}

impl Serde for BallastCommand {
    fn deserialize(command_payload: &[u8]) -> (r: Result<Box<Self>, ()>)
        ensures
            match r {
                Ok(c) => spec_ballast_decode(command_payload@) == Some(*c),
                Err(()) => spec_ballast_decode(command_payload@) is None,
            },
    {
        if command_payload.len() < 1 {
            return Err(());
        }
        match command_payload[0] {
            0 => Ok(Box::new(BallastCommand::Idle)),
            1 => Ok(Box::new(BallastCommand::Intake)),
            2 => Ok(Box::new(BallastCommand::Discharge)),
            _ => Err(()),
        }
    }
}

impl Serde for LightCommand {
    fn deserialize(command_payload: &[u8]) -> (r: Result<Box<Self>, ()>)
        ensures
            match r {
                Ok(c) => spec_light_decode(command_payload@) == Some(*c),
                Err(()) => spec_light_decode(command_payload@) is None,
            },
    {
        if command_payload.len() < 1 {
            return Err(());
        }
        match command_payload[0] {
            0 => Ok(Box::new(LightCommand::Off)),
            1 => Ok(Box::new(LightCommand::On)),
            2 => Ok(Box::new(LightCommand::Blink)),
            _ => Err(()),
        }
    }
}

impl Serde for PropulsionCommand {
    fn deserialize(command_payload: &[u8]) -> (r: Result<Box<Self>, ()>)
        ensures
            match r {
                Ok(c) => spec_propulsion_decode(command_payload@) == Some(*c),
                Err(()) => spec_propulsion_decode(command_payload@) is None,
            },
    {
        if command_payload.len() < 8 {
            return Err(());
        }
        let x_component: u32 = u32_from_le_bytes(slice_subrange(command_payload, 0, 4));
        let y_component: u32 = u32_from_le_bytes(slice_subrange(command_payload, 4, 8));
        Ok(
            Box::new(
                PropulsionCommand::SetThrust(
                    ThrustVector { x_bits: x_component, y_bits: y_component },
                ),
            ),
        )
    }
}

/// Round trip of the propulsion payload: encoding a thrust set-point as its
/// eight little-endian bytes and decoding them again yields the set-point
/// unchanged, bit for bit.
pub proof fn lemma_thrust_payload_round_trip(v: ThrustVector)
    ensures
        spec_propulsion_decode(spec_thrust_payload(v))
            == Some(PropulsionCommand::SetThrust(v)),
{
    vstd::bytes::lemma_auto_spec_u32_to_from_le_bytes();
    let payload = spec_thrust_payload(v);
    assert(payload.subrange(0, 4) =~= vstd::bytes::spec_u32_to_le_bytes(v.x_bits));
    assert(payload.subrange(4, 8) =~= vstd::bytes::spec_u32_to_le_bytes(v.y_bits));
}

} // verus!
