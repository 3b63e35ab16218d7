//! Pointing-device support for a keyboard firmware: the PMW3610 motion sensor,
//! the processing of its movement into mouse reports, gesture detection, and
//! the planning of PMW3360 initialisation code.

pub mod arith;
pub mod clock;
pub mod event;
pub mod pmw3360;
pub mod pmw3610;
pub mod pointing;
pub mod pointing_laws;
pub mod processor;
pub mod processor_laws;
pub mod text;
