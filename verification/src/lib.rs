//! Control core for a small remotely operated submersible.
//!
//! The crate contains the verified logic of the vehicle daemon: the binary
//! command protocol and its dispatcher, the actuator state machines (ballast
//! valves, ramp-limited thrusters with safe yaw reversal, light), the
//! telemetry packet pipeline and the per-tick orchestration.  All physical
//! quantities are held as exact fixed-point integers: a duty cycle or thrust
//! magnitude is a number of millionths of full scale, so every comparison and
//! every ramp step is exact.  Hardware pins, sockets, pipes, timers and
//! configuration files live outside this crate; the library models pin levels
//! as booleans and hands frames and packets to its caller as plain bytes.

pub mod command;
pub mod config;
pub mod definitions;
pub mod error;
pub mod hardware_model;
pub mod metrics;
pub mod movement;
pub mod scheduler;
pub mod telemetry;
pub mod traits;
