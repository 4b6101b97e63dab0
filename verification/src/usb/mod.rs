//! USB device driver with a control pipe that keeps track of its stages.
pub mod driver;
