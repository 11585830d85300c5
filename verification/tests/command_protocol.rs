//! Tests of the wire protocol: framing, validation and payload decoding.

use subcore::command::commands::{BallastCommand, LightCommand, PropulsionCommand};
use subcore::command::serde::{validate_command_structure, Serde, COMMAND_BUFFER_SIZE};
use subcore::command::{decode_frame, Command, CommandQueue};

fn frame(module_id: u8, payload: &[u8]) -> Vec<u8> {
    let mut f = vec![0u8; COMMAND_BUFFER_SIZE];
    f[0] = 0x0A;
    f[1] = module_id;
    f[15] = 0x0F;
    f[2..2 + payload.len()].copy_from_slice(payload);
    f
}

#[test]
fn validate_accepts_well_formed_frames() {
    for id in [0u8, 1, 2] {
        assert!(validate_command_structure(&frame(id, &[])));
    }
}

#[test]
fn validate_rejects_bad_start_byte() {
    let mut f = frame(0, &[]);
    f[0] = 0x0B;
    assert!(!validate_command_structure(&f));
}

#[test]
fn validate_rejects_bad_end_byte() {
    let mut f = frame(0, &[]);
    f[15] = 0x0E;
    assert!(!validate_command_structure(&f));
}

#[test]
fn validate_rejects_unknown_module_id() {
    assert!(!validate_command_structure(&frame(3, &[])));
    assert!(!validate_command_structure(&frame(0xFF, &[])));
}

#[test]
fn validate_rejects_wrong_length() {
    assert!(!validate_command_structure(&[]));
    assert!(!validate_command_structure(&[0x0A]));
    let mut long = frame(0, &[]);
    long.push(0);
    assert!(!validate_command_structure(&long));
}

#[test]
fn ballast_payload_decodes_all_three_commands() {
    let payload = [0u8; 13];
    assert_eq!(*BallastCommand::deserialize(&payload).unwrap(), BallastCommand::Idle);
    let payload = [1u8, 0, 0, 0, 0, 0, 0, 0, 0, 0, 0, 0, 0];
    assert_eq!(*BallastCommand::deserialize(&payload).unwrap(), BallastCommand::Intake);
    let payload = [2u8, 0, 0, 0, 0, 0, 0, 0, 0, 0, 0, 0, 0];
    assert_eq!(*BallastCommand::deserialize(&payload).unwrap(), BallastCommand::Discharge);
}

#[test]
fn ballast_payload_rejects_unknown_selector() {
    let payload = [3u8, 0, 0, 0, 0, 0, 0, 0, 0, 0, 0, 0, 0];
    assert!(BallastCommand::deserialize(&payload).is_err());
    assert!(BallastCommand::deserialize(&[]).is_err());
}

#[test]
fn light_payload_decodes_all_three_commands() {
    assert_eq!(*LightCommand::deserialize(&[0u8]).unwrap(), LightCommand::Off);
    assert_eq!(*LightCommand::deserialize(&[1u8]).unwrap(), LightCommand::On);
    assert_eq!(*LightCommand::deserialize(&[2u8]).unwrap(), LightCommand::Blink);
    assert!(LightCommand::deserialize(&[9u8]).is_err());
}

#[test]
fn propulsion_decode_round_trip_is_bit_exact() {
    let x = 0.5f32;
    let y = -0.25f32;
    let mut payload = Vec::new();
    payload.extend_from_slice(&x.to_le_bytes());
    payload.extend_from_slice(&y.to_le_bytes());
    payload.extend_from_slice(&[0u8; 5]);

    let cmd = PropulsionCommand::deserialize(&payload).unwrap();
    let PropulsionCommand::SetThrust(v) = *cmd;
    assert_eq!(v.x_bits, x.to_bits());
    assert_eq!(v.y_bits, y.to_bits());
    assert_eq!(f32::from_bits(v.x_bits), 0.5f32);
    assert_eq!(f32::from_bits(v.y_bits), -0.25f32);
}

#[test]
fn propulsion_payload_rejects_short_input() {
    assert!(PropulsionCommand::deserialize(&[0u8; 7]).is_err());
}

#[test]
fn decode_frame_routes_to_the_addressed_subsystem() {
    let f = frame(0, &[2]);
    assert_eq!(decode_frame(&f), Some(Command::Ballast(BallastCommand::Discharge)));
    let f = frame(2, &[1]);
    assert_eq!(decode_frame(&f), Some(Command::Light(LightCommand::On)));
    let f = frame(1, &0.5f32.to_le_bytes().iter().chain([0u8; 9].iter()).copied().collect::<Vec<u8>>());
    match decode_frame(&f) {
        Some(Command::Propulsion(PropulsionCommand::SetThrust(v))) => {
            assert_eq!(f32::from_bits(v.x_bits), 0.5f32);
            assert_eq!(f32::from_bits(v.y_bits), 0.0f32);
        }
        other => panic!("unexpected decode: {:?}", other),
    }
}

#[test]
fn decode_frame_drops_invalid_frames() {
    assert_eq!(decode_frame(&[]), None);
    let mut f = frame(0, &[2]);
    f[0] = 0;
    assert_eq!(decode_frame(&f), None);
    let f = frame(7, &[2]);
    assert_eq!(decode_frame(&f), None);
    let f = frame(0, &[9]);
    assert_eq!(decode_frame(&f), None);
}

#[test]
fn command_queue_is_first_in_first_out() {
    let mut q = CommandQueue::new();
    assert_eq!(q.pop_front(), None);
    q.push_back(Command::Ballast(BallastCommand::Intake));
    q.push_back(Command::Light(LightCommand::Blink));
    assert_eq!(q.len(), 2);
    assert_eq!(q.pop_front(), Some(Command::Ballast(BallastCommand::Intake)));
    assert_eq!(q.pop_front(), Some(Command::Light(LightCommand::Blink)));
    assert_eq!(q.pop_front(), None);
}
