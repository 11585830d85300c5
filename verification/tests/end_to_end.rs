//! End-to-end scenarios: a wire frame travels through decoding, the queue,
//! dispatch and actuation, and telemetry reflects the result.

use subcore::command::{decode_frame, dispatch, CommandQueue};
use subcore::config::hardware::ballast::{BallastConfig, BallastGpioConfig};
use subcore::config::hardware::light::{LightConfig, LightGpioConfig};
use subcore::config::hardware::propulsion::{PropulsionConfig, PropulsionGpioConfig};
use subcore::config::hardware::temperature::{TemperatureConfig, TemperatureGpioConfig};
use subcore::config::hardware::HardwareConfig;
use subcore::config::telemetry::TelemetryConfig;
use subcore::hardware_model::ballast::BallastState;
use subcore::hardware_model::Submarine;
use subcore::scheduler::{compute_idle_micros, run_tick, tick_interval_millis};
use subcore::telemetry::{Telemetry, BALLAST_PACKET_ID};
use subcore::movement::Movement;
use subcore::traits::Tick;

fn hardware_config() -> HardwareConfig {
    HardwareConfig {
        ballast: BallastConfig { gpio: BallastGpioConfig { intake_pin: 5, discharge_pin: 6 } },
        light: LightConfig { gpio: LightGpioConfig { light_pin: 7 } },
        propulsion: PropulsionConfig {
            gpio: PropulsionGpioConfig {
                aft_pin: 1,
                starboard_pin: 2,
                port_pin: 3,
                yaw_switch_pin: 4,
            },
            thrust_step_up: 50_000,
            thrust_step_down: 250_000,
        },
        temperature: TemperatureConfig {
            gpio: TemperatureGpioConfig { data_pin: 8 },
            sample_interval: 1,
        },
    }
}

#[test]
fn ballast_discharge_frame_end_to_end() {
    let mut sub = Submarine::new(&hardware_config()).unwrap();
    let mut queue = CommandQueue::new();

    let frame: [u8; 16] = [0x0A, 0x00, 0x02, 0, 0, 0, 0, 0, 0, 0, 0, 0, 0, 0, 0, 0x0F];
    let cmd = decode_frame(&frame).expect("a well-formed discharge frame must decode");
    queue.push_back(cmd);

    dispatch(&mut sub, &mut queue);
    assert_eq!(sub.ballast.get_current_state(), BallastState::Transition);
    assert_eq!(sub.ballast.get_target_state(), BallastState::Discharge);

    // The tick taken in Transition forces both valve outputs low.
    sub.tick(0);
    assert!(!sub.ballast.intake_pin_high);
    assert!(!sub.ballast.discharge_pin_high);
    assert_eq!(sub.ballast.get_current_state(), BallastState::Discharge);

    // The following tick drives the discharge valve, intake stays low.
    sub.tick(1);
    assert!(sub.ballast.discharge_pin_high);
    assert!(!sub.ballast.intake_pin_high);
}

#[test]
fn run_tick_orders_dispatch_before_actuation_and_telemetry() {
    let mut sub = Submarine::new(&hardware_config()).unwrap();
    let mut queue = CommandQueue::new();
    let mut telem = Telemetry::new(&TelemetryConfig { socket: String::from("telemetry_pipe") });
    telem.set_emitter_ready(true);

    let frame: [u8; 16] = [0x0A, 0x00, 0x01, 0, 0, 0, 0, 0, 0, 0, 0, 0, 0, 0, 0, 0x0F];
    queue.push_back(decode_frame(&frame).unwrap());

    // Tick 0: the intake command is dispatched and the transition tick
    // runs within the same iteration, so this tick's telemetry already
    // sees the machine past its all-off transition.
    let packets = run_tick(&mut sub, &mut telem, &mut queue, 0, 700, 9300);
    assert_eq!(queue.len(), 0);
    assert_eq!(sub.ballast.get_current_state(), BallastState::Intake);
    assert!(!sub.ballast.intake_pin_high, "transition tick keeps both outputs low");

    assert_eq!(packets.len(), 4);
    let ballast_packet = packets
        .iter()
        .find(|p| p[31] == BALLAST_PACKET_ID)
        .expect("ballast packet present");
    assert_eq!(ballast_packet[0], BallastState::Intake.as_byte());
    assert_eq!(ballast_packet[1], BallastState::Intake.as_byte());
    assert_eq!(&ballast_packet[27..31], &[0, 0, 0, 0]);

    // Tick 1: the steady state drives the intake valve.
    let packets = run_tick(&mut sub, &mut telem, &mut queue, 1, 700, 9300);
    assert!(sub.ballast.intake_pin_high);
    assert!(!sub.ballast.discharge_pin_high);
    let sys = &packets[3];
    assert_eq!(&sys[0..4], &700u32.to_le_bytes());
    assert_eq!(&sys[4..8], &9300u32.to_le_bytes());
}

#[test]
fn tick_budget_arithmetic() {
    assert_eq!(tick_interval_millis(10), 100);
    assert_eq!(tick_interval_millis(3), 333);
    assert_eq!(compute_idle_micros(100_000, 42_000), 58_000);
    assert_eq!(compute_idle_micros(100_000, 100_000), 0);
    // A missed deadline just eliminates idle time; it never goes negative.
    assert_eq!(compute_idle_micros(100_000, 250_000), 0);
}

#[test]
fn light_frame_switches_the_light_on() {
    let mut sub = Submarine::new(&hardware_config()).unwrap();
    let mut queue = CommandQueue::new();

    let frame: [u8; 16] = [0x0A, 0x02, 0x01, 0, 0, 0, 0, 0, 0, 0, 0, 0, 0, 0, 0, 0x0F];
    queue.push_back(decode_frame(&frame).unwrap());
    dispatch(&mut sub, &mut queue);
    sub.tick(1);
    assert!(sub.light.en_pin_high);
}

#[test]
fn at_most_one_command_is_dispatched_per_tick() {
    let mut sub = Submarine::new(&hardware_config()).unwrap();
    let mut queue = CommandQueue::new();
    let intake: [u8; 16] = [0x0A, 0x00, 0x01, 0, 0, 0, 0, 0, 0, 0, 0, 0, 0, 0, 0, 0x0F];
    let light_on: [u8; 16] = [0x0A, 0x02, 0x01, 0, 0, 0, 0, 0, 0, 0, 0, 0, 0, 0, 0, 0x0F];
    queue.push_back(decode_frame(&intake).unwrap());
    queue.push_back(decode_frame(&light_on).unwrap());

    dispatch(&mut sub, &mut queue);
    assert_eq!(queue.len(), 1);
    assert_eq!(sub.ballast.get_target_state(), BallastState::Intake);
    assert!(!sub.light.en_pin_high);

    dispatch(&mut sub, &mut queue);
    assert_eq!(queue.len(), 0);
    sub.tick(1);
    assert!(sub.light.en_pin_high);
}

#[test]
fn movement_layer_ticks_its_thruster() {
    let mut m = Movement::new().unwrap();
    assert!(!m.propulsion.port_thruster.en_pin_high);
    m.tick(0);
    assert!(m.propulsion.port_thruster.en_pin_high, "the pin toggles on every tenth tick");
    m.tick(1);
    assert!(m.propulsion.port_thruster.en_pin_high);
    m.propulsion.port_thruster.disable();
    assert!(!m.propulsion.port_thruster.en_pin_high);
    m.propulsion.port_thruster.enable();
    assert!(m.propulsion.port_thruster.en_pin_high);
}
