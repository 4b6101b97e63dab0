//! Logic of the example programs.
pub mod pwm;
pub mod uart_blocking;
pub mod usb_setup_poll;
