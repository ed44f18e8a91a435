//! Thermal-profile control for a reflow oven: the heater state machine, the
//! profile engine that times its phases, the two bang-bang control laws, and the
//! single-slot hand-offs between the command producer and the control loop.
//!
//! Everything here works on plain values. Bus transfers, pin writes, radio
//! traffic and task suspension belong to the program built around this crate.

pub mod device_logic;
pub mod hardware_concierge;
