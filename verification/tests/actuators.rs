//! Tests of the actuator state machines: ramp limiting, ballast valve
//! safety, yaw reversal safety, light modes and the thrust conversion.

use subcore::command::commands::{BallastCommand, LightCommand, PropulsionCommand};
use subcore::config::hardware::propulsion::{PropulsionConfig, PropulsionGpioConfig};
use subcore::definitions::{magnitude_micros, signed_micros, ThrustVector, UNIT_MICROS};
use subcore::hardware_model::ballast::{Ballast, BallastState};
use subcore::hardware_model::light::{Light, LightState};
use subcore::hardware_model::propulsion::thruster::Thruster;
use subcore::hardware_model::propulsion::yaw_thrust::YawThruster;
use subcore::hardware_model::propulsion::{compute_new_duty_cycle, Propulsion};
use subcore::config::hardware::ballast::{BallastConfig, BallastGpioConfig};
use subcore::config::hardware::light::{LightConfig, LightGpioConfig};
use subcore::traits::{SubmarineComponent, Tick};

fn propulsion_config(step_up: u32, step_down: u32) -> PropulsionConfig {
    PropulsionConfig {
        gpio: PropulsionGpioConfig { aft_pin: 1, starboard_pin: 2, port_pin: 3, yaw_switch_pin: 4 },
        thrust_step_up: step_up,
        thrust_step_down: step_down,
    }
}

#[test]
fn ramp_first_step_up_is_the_cap_not_the_target() {
    // current 0.0, target 1.0, step_up 0.05: one tick moves to 0.05.
    let mut t = Thruster::new(&propulsion_config(50_000, 250_000)).unwrap();
    t.set_target_duty_cycle(1_000_000);
    t.tick(0);
    assert_eq!(t.get_current_duty_cycle(), 50_000);
}

#[test]
fn ramp_first_step_down_is_the_cap() {
    // current 1.0, target 0.0, step_down 0.25: one tick moves to 0.75.
    let mut t = Thruster::new(&propulsion_config(50_000, 250_000)).unwrap();
    t.set_duty_cycle(1_000_000);
    t.set_target_duty_cycle(0);
    t.tick(0);
    assert_eq!(t.get_current_duty_cycle(), 750_000);
}

#[test]
fn ramp_snaps_to_target_within_one_step() {
    let mut t = Thruster::new(&propulsion_config(50_000, 250_000)).unwrap();
    t.set_duty_cycle(980_000);
    t.set_target_duty_cycle(1_000_000);
    t.tick(0);
    assert_eq!(t.get_current_duty_cycle(), 1_000_000);

    t.set_duty_cycle(200_000);
    t.set_target_duty_cycle(0);
    t.tick(0);
    assert_eq!(t.get_current_duty_cycle(), 0);
}

#[test]
fn ramp_whole_descent_sequence() {
    assert_eq!(compute_new_duty_cycle(1_000_000, 0, 50_000, 250_000), 750_000);
    assert_eq!(compute_new_duty_cycle(750_000, 0, 50_000, 250_000), 500_000);
    assert_eq!(compute_new_duty_cycle(500_000, 0, 50_000, 250_000), 250_000);
    assert_eq!(compute_new_duty_cycle(250_000, 0, 50_000, 250_000), 0);
    assert_eq!(compute_new_duty_cycle(0, 0, 50_000, 250_000), 0);
}

#[test]
fn disabled_controller_holds_its_duty_cycle() {
    let mut t = Thruster::new(&propulsion_config(50_000, 250_000)).unwrap();
    t.set_target_duty_cycle(1_000_000);
    t.disable();
    t.tick(0);
    assert_eq!(t.get_current_duty_cycle(), 0);
    t.enable();
    t.tick(1);
    assert_eq!(t.get_current_duty_cycle(), 50_000);
}

fn ballast() -> Ballast {
    Ballast::new(&BallastConfig { gpio: BallastGpioConfig { intake_pin: 5, discharge_pin: 6 } })
        .unwrap()
}

#[test]
fn ballast_never_shorts_across_any_command_sequence() {
    let commands = [
        BallastCommand::Intake,
        BallastCommand::Discharge,
        BallastCommand::Discharge,
        BallastCommand::Idle,
        BallastCommand::Intake,
        BallastCommand::Idle,
        BallastCommand::Discharge,
        BallastCommand::Intake,
    ];
    let mut b = ballast();
    let mut tick: u32 = 0;
    for cmd in commands {
        b.handle_command(&cmd);
        // The very next tick after a command forces both outputs low.
        b.tick(tick);
        assert!(!b.intake_pin_high && !b.discharge_pin_high);
        tick += 1;
        // Let the new steady state settle for a few ticks.
        for _ in 0..3 {
            b.tick(tick);
            assert!(!(b.intake_pin_high && b.discharge_pin_high));
            tick += 1;
        }
    }
}

#[test]
fn ballast_steady_states_drive_the_right_pins() {
    let mut b = ballast();
    b.handle_command(&BallastCommand::Intake);
    assert_eq!(b.get_current_state(), BallastState::Transition);
    b.tick(0);
    b.tick(1);
    assert_eq!(b.get_current_state(), BallastState::Intake);
    assert!(b.intake_pin_high && !b.discharge_pin_high);

    b.handle_command(&BallastCommand::Discharge);
    b.tick(2);
    assert!(!b.intake_pin_high && !b.discharge_pin_high);
    b.tick(3);
    assert!(b.discharge_pin_high && !b.intake_pin_high);
}

#[test]
fn ballast_recommand_during_transition_updates_target_without_extra_off_tick() {
    let mut b = ballast();
    b.handle_command(&BallastCommand::Intake);
    // Re-command before the transition tick: the target simply changes.
    b.handle_command(&BallastCommand::Discharge);
    assert_eq!(b.get_current_state(), BallastState::Transition);
    assert_eq!(b.get_target_state(), BallastState::Discharge);
    b.tick(0);
    assert_eq!(b.get_current_state(), BallastState::Discharge);
}

#[test]
fn yaw_reversal_never_switches_under_load() {
    let cfg = propulsion_config(200_000, 250_000);
    let mut p = Propulsion::new(&cfg).unwrap();

    // Full port yaw, then let it spin up.
    p.handle_command(&PropulsionCommand::SetThrust(ThrustVector {
        x_bits: 1.0f32.to_bits(),
        y_bits: 0.0f32.to_bits(),
    }));
    let mut switch = p.yaw_thruster.switch_high;
    for tick in 0..6 {
        let port_before = p.yaw_thruster.port.current_duty_cycle;
        let sb_before = p.yaw_thruster.starboard.current_duty_cycle;
        p.tick(tick);
        if p.yaw_thruster.switch_high != switch {
            assert_eq!(port_before, 0);
            assert_eq!(sb_before, 0);
        }
        switch = p.yaw_thruster.switch_high;
    }
    assert_eq!(p.yaw_thruster.get_active_thruster(), YawThruster::Port);
    assert!(p.yaw_thruster.switch_high);
    assert_eq!(p.yaw_thruster.get_current_duty_cycle(), 1_000_000);

    // Immediately reverse to starboard: the line must hold until the port
    // ramp reaches zero, then flip while both outputs are at zero.
    p.handle_command(&PropulsionCommand::SetThrust(ThrustVector {
        x_bits: (-1.0f32).to_bits(),
        y_bits: 0.0f32.to_bits(),
    }));
    let mut flips = 0;
    for tick in 0..12 {
        let port_before = p.yaw_thruster.port.current_duty_cycle;
        let sb_before = p.yaw_thruster.starboard.current_duty_cycle;
        p.tick(tick);
        if p.yaw_thruster.switch_high != switch {
            flips += 1;
            assert_eq!(port_before, 0, "direction-select changed under load");
            assert_eq!(sb_before, 0, "direction-select changed under load");
        }
        switch = p.yaw_thruster.switch_high;
    }
    assert_eq!(flips, 1);
    assert_eq!(p.yaw_thruster.get_active_thruster(), YawThruster::Starboard);
    assert!(!p.yaw_thruster.switch_high);
    assert_eq!(p.yaw_thruster.get_current_duty_cycle(), 1_000_000);
}

#[test]
fn zero_yaw_stands_the_selector_down() {
    let cfg = propulsion_config(200_000, 250_000);
    let mut p = Propulsion::new(&cfg).unwrap();
    p.handle_command(&PropulsionCommand::SetThrust(ThrustVector {
        x_bits: 0.0f32.to_bits(),
        y_bits: 1.0f32.to_bits(),
    }));
    assert_eq!(p.yaw_thruster.target_thruster, YawThruster::Inactive);
    p.tick(0);
    assert!(!p.yaw_thruster.output_enabled);
    assert_eq!(p.get_direction().y_micros, 1_000_000);
}

#[test]
fn forward_thrust_is_clamped_non_negative() {
    let cfg = propulsion_config(200_000, 250_000);
    let mut p = Propulsion::new(&cfg).unwrap();
    p.handle_command(&PropulsionCommand::SetThrust(ThrustVector {
        x_bits: 0.0f32.to_bits(),
        y_bits: (-0.5f32).to_bits(),
    }));
    assert_eq!(p.get_direction().y_micros, 0);
    assert_eq!(p.aft_thruster.target_duty_cycle, 0);
}

#[test]
fn thrust_conversion_gives_exact_millionths() {
    assert_eq!(magnitude_micros(0.5f32.to_bits()), 500_000);
    assert_eq!(magnitude_micros(0.25f32.to_bits()), 250_000);
    assert_eq!(magnitude_micros(0.05f32.to_bits()), 50_000);
    assert_eq!(magnitude_micros(1.0f32.to_bits()), UNIT_MICROS);
    assert_eq!(magnitude_micros(2.0f32.to_bits()), UNIT_MICROS);
    assert_eq!(magnitude_micros(f32::INFINITY.to_bits()), UNIT_MICROS);
    assert_eq!(magnitude_micros(f32::NAN.to_bits()), 0);
    assert_eq!(magnitude_micros(0.0f32.to_bits()), 0);
    assert_eq!(magnitude_micros(1e-9f32.to_bits()), 0);
    assert_eq!(signed_micros((-0.25f32).to_bits()), -250_000);
    assert_eq!(signed_micros((-2.0f32).to_bits()), -(UNIT_MICROS as i32));
    assert_eq!(signed_micros(0.75f32.to_bits()), 750_000);
}

#[test]
fn light_modes_drive_the_pin() {
    let mut l = Light::new(&LightConfig { gpio: LightGpioConfig { light_pin: 7 } }).unwrap();
    l.handle_command(&LightCommand::On);
    l.tick(1);
    assert!(l.en_pin_high);
    l.handle_command(&LightCommand::Off);
    l.tick(2);
    assert!(!l.en_pin_high);

    l.handle_command(&LightCommand::Blink);
    assert_eq!(l.state, LightState::Blink);
    l.tick(3);
    assert!(!l.en_pin_high, "blink only toggles every tenth tick");
    l.tick(10);
    assert!(l.en_pin_high);
    l.tick(11);
    assert!(l.en_pin_high);
    l.tick(20);
    assert!(!l.en_pin_high);
}
