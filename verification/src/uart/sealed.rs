//! Routing facts of UART pins.
use vstd::prelude::*;

use crate::gpio::MuxConfig;

verus! {

#[derive(Debug, Clone, Copy, PartialEq, Eq, Structural)]
pub enum PinDirection {
    Tx,
    Rx,
}

/// How a pin is routed to a UART.
#[derive(Debug, Clone, Copy, PartialEq, Eq, Structural)]
pub struct PinMetadata {
    pub mio: u8,
    pub direction: PinDirection,
    /// Number of the route. Both pins of a route have the same one.
    pub route_id: u8,
    pub mux_config: MuxConfig,
}

} // verus!
