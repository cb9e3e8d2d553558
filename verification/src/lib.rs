//! Verified core logic of the luhbots robot-soccer firmware: the ATSAM4 hardware
//! abstraction layer drivers (as register-level decisions), the radio/basestation
//! packet handling, and the small peripheral drivers used by the robots.

pub mod chipid;
pub mod definitions;
pub mod converter;
pub mod robot_state;
pub mod efc;
pub mod pid;
pub mod ethernet;
pub mod clock;
pub mod udp;
pub mod pdc;
pub mod adc;
pub mod dribbler;
pub mod kicker;
pub mod sky66112;
pub mod spi;
pub mod rtt;
pub mod timer;
pub mod watchdog;
pub mod static_memory_controller;
pub mod gpio;
pub mod sealed;
pub mod status;
pub mod network;
pub mod radio;
pub mod generic_smi;
pub mod bmi270;
pub mod uart;
pub mod dribblercontroller;
