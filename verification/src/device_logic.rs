//! The controller proper: what is commanded, what is measured, and how the
//! heater follows a profile.

pub mod ble;
pub mod command_channel;
pub mod heater_controller;
pub mod profile;
pub mod rolling_sum;
pub mod telemetry;
