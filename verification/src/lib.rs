//! Register-level driver model for the IIS2DLPC 3-axis MEMS accelerometer.
//!
//! The crate models every register of the device as a typed bitfield record,
//! exposes the device-level configuration operations over a bus abstraction,
//! and proves that each operation performs exactly the register reads and
//! writes that the datasheet calls for, preserving every bit it does not
//! intend to change.

pub mod bus;
pub mod config;
pub mod convert;
pub mod ctrl;
pub mod driver;
pub mod driver_cfg;
pub mod driver_events;
pub mod driver_fifo;
pub mod driver_pins;
pub mod enums;
pub mod modes;
pub mod offsets;
pub mod outputs;
pub mod regmap;
pub mod sources;
