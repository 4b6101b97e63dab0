//! Lower-level building blocks that are independent of the asynchronous drivers.
pub mod devcfg;
pub mod dma;
pub mod interrupt;
pub mod reset;
pub mod sd;
pub mod uart;
pub mod usb;
pub mod watchdog;
pub mod xadc;
