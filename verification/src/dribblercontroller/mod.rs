//! The dribbler motor controller board: reading the servo style speed input and
//! driving the ESCON motor controller's PWM input.
pub mod escon;
pub mod servo;
