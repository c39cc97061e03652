//! Decision logic of the test shield's board support package.
//!
//! The shield carries two switched USB power ports (each watched by an INA219
//! monitor), a USB host port and the pins that connect to the device under
//! test. Everything that touches hardware is driven from outside this crate;
//! the crate decides what to do next and judges what was measured.
//!
//! * [`stuck`]: whether a single pin follows its pull resistors.
//! * [`shorts`]: whether any two pins are connected to each other.
//! * [`power_check`]: whether a USB power switch really switches.
//! * [`usb_power`]: addressing, configuration and line levels of a power port.
//! * [`selftest`]: the order of all checks and the overall verdict.

pub mod stuck;
pub mod shorts;
pub mod monitor;
pub mod power_check;
pub mod usb_power;
pub mod selftest;
