//! Register images.
pub mod usb;
pub mod xadc;
