//! The PMW3610 low-power mouse sensor.
//!
//! Everything that the driver decides stands here as state machines over plain
//! values. The host performs the bus, pin and timer actions that they ask for
//! and hands back what happened.

pub mod bus;
pub mod device;
pub mod device_laws;
pub mod laws;
pub mod motion;
pub mod procedures;
pub mod registers;
pub mod script;
pub mod sensor;
pub mod sensor_laws;
pub mod trace;
pub mod types;
