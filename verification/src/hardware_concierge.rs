//! The thermal hardware as the controller sees it.

pub mod thermo_control;
