//! Type-level logical interrupt traits and bindings.
use vstd::prelude::*;

use super::{Interrupt as GicInterrupt, PpiInterrupt, SpiInterrupt};
use crate::runtime::{self, GicOp};

verus! {

/// Type-level logical interrupt.
pub trait Interrupt {
    /// Concrete interrupt routed for this source.
    spec fn source() -> GicInterrupt;

    fn irq() -> (r: GicInterrupt)
        ensures
            r == Self::source(),
    ;

    /// Enable the interrupt at the interrupt controller.
    fn enable() -> (ops: Vec<GicOp>)
        ensures
            ops@ == runtime::enable_ops(Self::source()),
    {
        runtime::enable_interrupt(Self::irq())
    }

    /// Disable the interrupt at the interrupt controller.
    fn disable() -> (ops: Vec<GicOp>)
        ensures
            ops@ == runtime::disable_ops(Self::source()),
    {
        runtime::disable_interrupt(Self::irq())
    }

    /// Clear a pending delivery at the interrupt controller.
    fn unpend() -> (ops: Vec<GicOp>)
        ensures
            ops@ == runtime::unpend_ops(Self::source()),
    {
        runtime::unpend_interrupt(Self::irq())
    }
}

/// Driver interrupt handler.
pub trait Handler<I: Interrupt> {
    /// Handle one interrupt delivery for `I`, in the interrupt context of `I`.
    fn on_interrupt();
}

/// Compile-time proof that `I` is bound to `H`.
///
/// Implementers state the address under which `H` is found when `I` fires.
pub trait Binding<I: Interrupt, H: Handler<I>>: Copy {
    spec fn address(&self) -> usize;

    /// The address of the handler function. It is never zero.
    fn handler_address(&self) -> (r: usize)
        ensures
            r == self.address(),
            r != 0,
    ;
}

/// The interrupt of the global timer, which every processor has for itself.
#[derive(Debug, Clone, Copy, PartialEq, Eq, Structural)]
pub enum GlobalTimer {
    Line,
}

impl Interrupt for GlobalTimer {
    open spec fn source() -> GicInterrupt {
        GicInterrupt::Ppi(PpiInterrupt::GlobalTimer)
    }

    fn irq() -> (r: GicInterrupt) {
        GicInterrupt::Ppi(PpiInterrupt::GlobalTimer)
    }
}

/// The interrupt line of the same name.
#[derive(Debug, Clone, Copy, PartialEq, Eq, Structural)]
pub enum Usb0 {
    Line,
}

impl Interrupt for Usb0 {
    open spec fn source() -> GicInterrupt {
        GicInterrupt::Spi(SpiInterrupt::Usb0)
    }

    fn irq() -> (r: GicInterrupt) {
        GicInterrupt::Spi(SpiInterrupt::Usb0)
    }
}

/// The interrupt line of the same name.
#[derive(Debug, Clone, Copy, PartialEq, Eq, Structural)]
pub enum Usb1 {
    Line,
}

impl Interrupt for Usb1 {
    open spec fn source() -> GicInterrupt {
        GicInterrupt::Spi(SpiInterrupt::Usb1)
    }

    fn irq() -> (r: GicInterrupt) {
        GicInterrupt::Spi(SpiInterrupt::Usb1)
    }
}

/// The interrupt line of the same name.
#[derive(Debug, Clone, Copy, PartialEq, Eq, Structural)]
pub enum Uart0 {
    Line,
}

impl Interrupt for Uart0 {
    open spec fn source() -> GicInterrupt {
        GicInterrupt::Spi(SpiInterrupt::Uart0)
    }

    fn irq() -> (r: GicInterrupt) {
        GicInterrupt::Spi(SpiInterrupt::Uart0)
    }
}

/// The interrupt line of the same name.
#[derive(Debug, Clone, Copy, PartialEq, Eq, Structural)]
pub enum Uart1 {
    Line,
}

impl Interrupt for Uart1 {
    open spec fn source() -> GicInterrupt {
        GicInterrupt::Spi(SpiInterrupt::Uart1)
    }

    fn irq() -> (r: GicInterrupt) {
        GicInterrupt::Spi(SpiInterrupt::Uart1)
    }
}

/// The interrupt line of the same name.
#[derive(Debug, Clone, Copy, PartialEq, Eq, Structural)]
pub enum Spi0 {
    Line,
}

impl Interrupt for Spi0 {
    open spec fn source() -> GicInterrupt {
        GicInterrupt::Spi(SpiInterrupt::Spi0)
    }

    fn irq() -> (r: GicInterrupt) {
        GicInterrupt::Spi(SpiInterrupt::Spi0)
    }
}

/// The interrupt line of the same name.
#[derive(Debug, Clone, Copy, PartialEq, Eq, Structural)]
pub enum Spi1 {
    Line,
}

impl Interrupt for Spi1 {
    open spec fn source() -> GicInterrupt {
        GicInterrupt::Spi(SpiInterrupt::Spi1)
    }

    fn irq() -> (r: GicInterrupt) {
        GicInterrupt::Spi(SpiInterrupt::Spi1)
    }
}

/// The interrupt line of the same name.
#[derive(Debug, Clone, Copy, PartialEq, Eq, Structural)]
pub enum I2c0 {
    Line,
}

impl Interrupt for I2c0 {
    open spec fn source() -> GicInterrupt {
        GicInterrupt::Spi(SpiInterrupt::I2c0)
    }

    fn irq() -> (r: GicInterrupt) {
        GicInterrupt::Spi(SpiInterrupt::I2c0)
    }
}

/// The interrupt line of the same name.
#[derive(Debug, Clone, Copy, PartialEq, Eq, Structural)]
pub enum I2c1 {
    Line,
}

impl Interrupt for I2c1 {
    open spec fn source() -> GicInterrupt {
        GicInterrupt::Spi(SpiInterrupt::I2c1)
    }

    fn irq() -> (r: GicInterrupt) {
        GicInterrupt::Spi(SpiInterrupt::I2c1)
    }
}

/// The interrupt line of the same name.
#[derive(Debug, Clone, Copy, PartialEq, Eq, Structural)]
pub enum Sdio0 {
    Line,
}

impl Interrupt for Sdio0 {
    open spec fn source() -> GicInterrupt {
        GicInterrupt::Spi(SpiInterrupt::Sdio0)
    }

    fn irq() -> (r: GicInterrupt) {
        GicInterrupt::Spi(SpiInterrupt::Sdio0)
    }
}

/// The interrupt line of the same name.
#[derive(Debug, Clone, Copy, PartialEq, Eq, Structural)]
pub enum Sdio1 {
    Line,
}

impl Interrupt for Sdio1 {
    open spec fn source() -> GicInterrupt {
        GicInterrupt::Spi(SpiInterrupt::Sdio1)
    }

    fn irq() -> (r: GicInterrupt) {
        GicInterrupt::Spi(SpiInterrupt::Sdio1)
    }
}

/// The interrupt line of the same name.
#[derive(Debug, Clone, Copy, PartialEq, Eq, Structural)]
pub enum Eth0 {
    Line,
}

impl Interrupt for Eth0 {
    open spec fn source() -> GicInterrupt {
        GicInterrupt::Spi(SpiInterrupt::Eth0)
    }

    fn irq() -> (r: GicInterrupt) {
        GicInterrupt::Spi(SpiInterrupt::Eth0)
    }
}

/// The interrupt line of the same name.
#[derive(Debug, Clone, Copy, PartialEq, Eq, Structural)]
pub enum Eth1 {
    Line,
}

impl Interrupt for Eth1 {
    open spec fn source() -> GicInterrupt {
        GicInterrupt::Spi(SpiInterrupt::Eth1)
    }

    fn irq() -> (r: GicInterrupt) {
        GicInterrupt::Spi(SpiInterrupt::Eth1)
    }
}

} // verus!
