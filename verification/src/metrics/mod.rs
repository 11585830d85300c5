//! Self-measurement of the control loop.

pub mod system;
