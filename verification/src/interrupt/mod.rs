//! Interrupt identities and the table of bound handlers.
//!
//! All drivers share one physical interrupt entry. It reads the acknowledged
//! interrupt, looks the handler up in a [`HandlerTable`] and runs it.
//! [`bind`] is the activation path: register, unpend, enable.
use vstd::prelude::*;

use crate::runtime::{self, GicOp};

pub mod typelevel;

verus! {

#[derive(Debug, Clone, Copy, PartialEq, Eq, Structural)]
pub enum PpiInterrupt {
    GlobalTimer,
    NFiq,
    CpuPrivateTimer,
    Awdt,
    NIrq,
}

#[derive(Debug, Clone, Copy, PartialEq, Eq, Structural)]
pub enum SpiInterrupt {
    Usb0,
    Eth0,
    Sdio0,
    I2c0,
    Spi0,
    Uart0,
    Ttc10,
    Usb1,
    Eth1,
    Sdio1,
    I2c1,
    Spi1,
    Uart1,
}

#[derive(Debug, Clone, Copy, PartialEq, Eq, Structural)]
pub enum Interrupt {
    Sgi(usize),
    Ppi(PpiInterrupt),
    Spi(SpiInterrupt),
    Invalid(usize),
    Spurious,
}

impl PpiInterrupt {
    /// The interrupt identifier at the interrupt controller.
    pub open spec fn number(self) -> u8 {
        match self {
            PpiInterrupt::GlobalTimer => 27,
            PpiInterrupt::NFiq => 28,
            PpiInterrupt::CpuPrivateTimer => 29,
            PpiInterrupt::Awdt => 30,
            PpiInterrupt::NIrq => 31,
        }
    }

    pub fn id(self) -> (r: u8)
        ensures
            r == self.number(),
            27 <= r <= 31,
    {
        match self {
            PpiInterrupt::GlobalTimer => 27,
            PpiInterrupt::NFiq => 28,
            PpiInterrupt::CpuPrivateTimer => 29,
            PpiInterrupt::Awdt => 30,
            PpiInterrupt::NIrq => 31,
        }
    }
}

impl SpiInterrupt {
    /// The interrupt identifier at the interrupt controller.
    pub open spec fn number(self) -> u8 {
        match self {
            SpiInterrupt::Usb0 => 53,
            SpiInterrupt::Eth0 => 54,
            SpiInterrupt::Sdio0 => 56,
            SpiInterrupt::I2c0 => 57,
            SpiInterrupt::Spi0 => 58,
            SpiInterrupt::Uart0 => 59,
            SpiInterrupt::Ttc10 => 69,
            SpiInterrupt::Usb1 => 76,
            SpiInterrupt::Eth1 => 77,
            SpiInterrupt::Sdio1 => 79,
            SpiInterrupt::I2c1 => 80,
            SpiInterrupt::Spi1 => 81,
            SpiInterrupt::Uart1 => 82,
        }
    }

    pub fn id(self) -> (r: u8)
        ensures
            r == self.number(),
            32 <= r <= 92,
    {
        match self {
            SpiInterrupt::Usb0 => 53,
            SpiInterrupt::Eth0 => 54,
            SpiInterrupt::Sdio0 => 56,
            SpiInterrupt::I2c0 => 57,
            SpiInterrupt::Spi0 => 58,
            SpiInterrupt::Uart0 => 59,
            SpiInterrupt::Ttc10 => 69,
            SpiInterrupt::Usb1 => 76,
            SpiInterrupt::Eth1 => 77,
            SpiInterrupt::Sdio1 => 79,
            SpiInterrupt::I2c1 => 80,
            SpiInterrupt::Spi1 => 81,
            SpiInterrupt::Uart1 => 82,
        }
    }
}

/// Fields of the interrupt acknowledge register.
#[derive(Debug, Clone, Copy, PartialEq, Eq, Structural)]
pub struct InterruptSignalRegister {
    pub cpu_id: u8,
    pub ack_int_id: u32,
}

#[derive(Debug, Clone, Copy, PartialEq, Eq, Structural)]
pub struct InterruptInfo {
    pub raw_reg: InterruptSignalRegister,
    pub interrupt: Interrupt,
    pub cpu_id: u8,
}

impl InterruptInfo {
    pub fn new(raw_reg: InterruptSignalRegister) -> (r: Self)
        ensures
            r.raw_reg == raw_reg,
            r.interrupt == Interrupt::decoded(raw_reg.ack_int_id),
            r.cpu_id == raw_reg.cpu_id,
    {
        let interrupt = Interrupt::from_raw(raw_reg.ack_int_id);
        InterruptInfo { raw_reg, interrupt, cpu_id: raw_reg.cpu_id }
    }

    pub fn interrupt(&self) -> (r: Interrupt)
        ensures
            r == self.interrupt,
    {
        self.interrupt
    }

    pub fn cpu_id(&self) -> (r: u8)
        ensures
            r == self.cpu_id,
    {
        self.cpu_id
    }

    pub fn raw_reg(&self) -> (r: InterruptSignalRegister)
        ensures
            r == self.raw_reg,
    {
        self.raw_reg
    }
}

impl Interrupt {
    /// The identifier at the interrupt controller, absent for what can never be delivered.
    pub open spec fn number(self) -> Option<usize> {
        match self {
            Interrupt::Sgi(id) => Some(id),
            Interrupt::Ppi(ppi) => Some(ppi.number() as usize),
            Interrupt::Spi(spi) => Some(spi.number() as usize),
            Interrupt::Invalid(_) | Interrupt::Spurious => None,
        }
    }

    /// The interrupt with identifier `id`: identifiers below 16 are software
    /// generated, 27 to 31 are private to a processor, 32 to 92 are shared.
    pub open spec fn decoded(id: u32) -> Interrupt {
        if id < 16 {
            Interrupt::Sgi(id as usize)
        } else if id == 27 {
            Interrupt::Ppi(PpiInterrupt::GlobalTimer)
        } else if id == 28 {
            Interrupt::Ppi(PpiInterrupt::NFiq)
        } else if id == 29 {
            Interrupt::Ppi(PpiInterrupt::CpuPrivateTimer)
        } else if id == 30 {
            Interrupt::Ppi(PpiInterrupt::Awdt)
        } else if id == 31 {
            Interrupt::Ppi(PpiInterrupt::NIrq)
        } else if 32 <= id <= 92 {
            Self::decoded_spi(id as u8)
        } else if id == 1023 {
            Interrupt::Spurious
        } else {
            Interrupt::Invalid(id as usize)
        }
    }

    /// The shared peripheral interrupt with identifier `id`.
    pub open spec fn decoded_spi(id: u8) -> Interrupt {
        if id == 53 {
            Interrupt::Spi(SpiInterrupt::Usb0)
        } else if id == 54 {
            Interrupt::Spi(SpiInterrupt::Eth0)
        } else if id == 56 {
            Interrupt::Spi(SpiInterrupt::Sdio0)
        } else if id == 57 {
            Interrupt::Spi(SpiInterrupt::I2c0)
        } else if id == 58 {
            Interrupt::Spi(SpiInterrupt::Spi0)
        } else if id == 59 {
            Interrupt::Spi(SpiInterrupt::Uart0)
        } else if id == 69 {
            Interrupt::Spi(SpiInterrupt::Ttc10)
        } else if id == 76 {
            Interrupt::Spi(SpiInterrupt::Usb1)
        } else if id == 77 {
            Interrupt::Spi(SpiInterrupt::Eth1)
        } else if id == 79 {
            Interrupt::Spi(SpiInterrupt::Sdio1)
        } else if id == 80 {
            Interrupt::Spi(SpiInterrupt::I2c1)
        } else if id == 81 {
            Interrupt::Spi(SpiInterrupt::Spi1)
        } else if id == 82 {
            Interrupt::Spi(SpiInterrupt::Uart1)
        } else {
            Interrupt::Invalid(id as usize)
        }
    }

    pub fn from_raw(int_id: u32) -> (r: Interrupt)
        ensures
            r == Interrupt::decoded(int_id),
    {
        match int_id {
            0..=15 => Interrupt::Sgi(int_id as usize),
            27 => Interrupt::Ppi(PpiInterrupt::GlobalTimer),
            28 => Interrupt::Ppi(PpiInterrupt::NFiq),
            29 => Interrupt::Ppi(PpiInterrupt::CpuPrivateTimer),
            30 => Interrupt::Ppi(PpiInterrupt::Awdt),
            31 => Interrupt::Ppi(PpiInterrupt::NIrq),
            32..=92 => Interrupt::spi_from_raw(int_id as u8),
            1023 => Interrupt::Spurious,
            _ => Interrupt::Invalid(int_id as usize),
        }
    }

    pub fn spi_from_raw(id: u8) -> (r: Interrupt)
        ensures
            r == Interrupt::decoded_spi(id),
    {
        let spi = match id {
            53 => SpiInterrupt::Usb0,
            54 => SpiInterrupt::Eth0,
            56 => SpiInterrupt::Sdio0,
            57 => SpiInterrupt::I2c0,
            58 => SpiInterrupt::Spi0,
            59 => SpiInterrupt::Uart0,
            69 => SpiInterrupt::Ttc10,
            76 => SpiInterrupt::Usb1,
            77 => SpiInterrupt::Eth1,
            79 => SpiInterrupt::Sdio1,
            80 => SpiInterrupt::I2c1,
            81 => SpiInterrupt::Spi1,
            82 => SpiInterrupt::Uart1,
            _ => return Interrupt::Invalid(id as usize),
        };
        Interrupt::Spi(spi)
    }

    pub fn raw_id(self) -> (r: Option<usize>)
        ensures
            r == self.number(),
    {
        match self {
            Interrupt::Sgi(id) => Some(id),
            Interrupt::Ppi(ppi) => Some(ppi.id() as usize),
            Interrupt::Spi(spi) => Some(spi.id() as usize),
            Interrupt::Invalid(_) | Interrupt::Spurious => None,
        }
    }

    pub fn is_supported(self) -> (r: bool)
        ensures
            r == (self is Ppi || self is Spi),
    {
        matches!(self, Interrupt::Ppi(_) | Interrupt::Spi(_))
    }
}

/// Decoding an identifier and asking for it again gives the identifier back,
/// or nothing where the identifier names no deliverable interrupt.
pub proof fn raw_id_round_trips(id: u32)
    ensures
        Interrupt::decoded(id).number() is Some ==> Interrupt::decoded(id).number() == Some(
            id as usize,
        ),
        Interrupt::decoded(id).number() is None <==> (Interrupt::decoded(id) is Invalid
            || Interrupt::decoded(id) is Spurious),
{
}

/// Every peripheral interrupt is what its own identifier decodes to.
pub proof fn peripheral_interrupts_decode_to_themselves(interrupt: Interrupt)
    requires
        interrupt is Ppi || interrupt is Spi,
    ensures
        interrupt.number() is Some,
        Interrupt::decoded(interrupt.number()->0 as u32) == interrupt,
{
}

/// Number of interrupt identifiers that can have a handler.
pub const HANDLER_COUNT: usize = 93;

/// The handler registered for each interrupt identifier, by its address. Zero is none.
pub struct HandlerTable {
    pub handlers: [usize; HANDLER_COUNT],
}

impl HandlerTable {
    pub open spec fn view(&self) -> Seq<usize> {
        self.handlers@
    }

    /// The identifier of `interrupt` has a slot, if there is one at all.
    pub open spec fn has_slot(interrupt: Interrupt) -> bool {
        interrupt.number() is Some ==> interrupt.number()->0 < HANDLER_COUNT
    }

    /// Registering `handler` would displace a different one.
    pub open spec fn conflicts(&self, interrupt: Interrupt, handler: usize) -> bool {
        interrupt.number() matches Some(id) && self@[id as int] != 0 && self@[id as int] != handler
    }

    pub fn new() -> (r: Self)
        ensures
            r@ == Seq::new(HANDLER_COUNT as nat, |i: int| 0usize),
    {
        let handlers: [usize; HANDLER_COUNT] = [0;HANDLER_COUNT];
        assert(handlers@ =~= Seq::new(HANDLER_COUNT as nat, |i: int| 0usize));
        HandlerTable { handlers }
    }

    /// Whether `handler` can be registered for `interrupt`: no different handler is there.
    pub fn accepts(&self, interrupt: Interrupt, handler: usize) -> (r: bool)
        requires
            Self::has_slot(interrupt),
        ensures
            r == !self.conflicts(interrupt, handler),
    {
        match interrupt.raw_id() {
            Some(idx) => self.handlers[idx] == 0 || self.handlers[idx] == handler,
            None => true,
        }
    }

    /// Registers `handler`, the address of a handler function, for `interrupt`.
    ///
    /// Registering the same handler again is allowed, registering another one is
    /// not. Interrupts without an identifier are ignored.
    pub fn register_internal(&mut self, interrupt: Interrupt, handler: usize)
        requires
            Self::has_slot(interrupt),
            handler != 0,
            !old(self).conflicts(interrupt, handler),
        ensures
            final(self)@ == match interrupt.number() {
                Some(id) => old(self)@.update(id as int, handler),
                None => old(self)@,
            },
    {
        if let Some(idx) = interrupt.raw_id() {
            if self.handlers[idx] == 0 {
                self.handlers[idx] = handler;
            }
            assert(self@ =~= old(self)@.update(idx as int, handler));
        }
    }

    /// The address of the handler that a delivery of `interrupt` runs, if there is one.
    pub fn dispatch_registered(&self, interrupt: Interrupt) -> (r: Option<usize>)
        requires
            Self::has_slot(interrupt),
        ensures
            r == match interrupt.number() {
                Some(id) if self@[id as int] != 0 => Some(self@[id as int]),
                _ => None,
            },
    {
        let idx: usize = match interrupt.raw_id() {
            Some(idx) => idx,
            None => return None,
        };
        let handler: usize = self.handlers[idx];
        if handler == 0 {
            return None;
        }
        Some(handler)
    }
}

/// Check whether `interrupt` matches the type-level source `I`.
pub fn matches<I: typelevel::Interrupt>(interrupt: Interrupt) -> (r: bool)
    ensures
        r == (interrupt == I::source()),
{
    interrupt == I::irq()
}

/// Dispatch one interrupt to a concrete handler if it matches `I`.
///
/// Returns whether the handler ran. Must only be called from the interrupt
/// context in which `interrupt` was delivered.
///
/// A match runs the handler once, and any other interrupt does not run it; the
/// contract holds that it ran on a match.
pub fn dispatch<I: typelevel::Interrupt, H: typelevel::Handler<I>>(interrupt: Interrupt) -> (r:
    bool)
    ensures
        r == (interrupt == I::source()),
        r ==> call_ensures(H::on_interrupt, (), ()),
{
    if matches::<I>(interrupt) {
        H::on_interrupt();
        true
    } else {
        false
    }
}

/// Registers the handler at `handler` for the type-level source `I`.
///
/// No other handler may be registered for it: [`HandlerTable::accepts`].
pub fn register<I: typelevel::Interrupt>(table: &mut HandlerTable, handler: usize)
    requires
        HandlerTable::has_slot(I::source()),
        handler != 0,
        !old(table).conflicts(I::source(), handler),
    ensures
        final(table)@ == match I::source().number() {
            Some(id) => old(table)@.update(id as int, handler),
            None => old(table)@,
        },
{
    table.register_internal(I::irq(), handler)
}

/// Activates a binding: registers its handler, then clears a stale pending
/// delivery of the interrupt, then enables it.
///
/// No other handler may be registered for the interrupt: [`HandlerTable::accepts`].
pub fn bind<I: typelevel::Interrupt, H: typelevel::Handler<I>, B: typelevel::Binding<I, H>>(
    binding: B,
    table: &mut HandlerTable,
) -> (ops: Vec<GicOp>)
    requires
        HandlerTable::has_slot(I::source()),
        !old(table).conflicts(I::source(), binding.address()),
    ensures
        ops@ == runtime::unpend_ops(I::source()) + runtime::enable_ops(I::source()),
        final(table)@ == match I::source().number() {
            Some(id) => old(table)@.update(id as int, binding.address()),
            None => old(table)@,
        },
{
    let handler: usize = binding.handler_address();
    register::<I>(table, handler);
    let mut ops = I::unpend();
    let mut enable = I::enable();
    ops.append(&mut enable);
    ops
}

/// A registered handler is the one that a delivery runs, and no other slot changes.
pub proof fn registered_handler_is_dispatched(
    before: Seq<usize>,
    id: int,
    handler: usize,
    other: int,
)
    requires
        before.len() == HANDLER_COUNT,
        0 <= id < HANDLER_COUNT,
        0 <= other < HANDLER_COUNT,
    ensures
        before.update(id, handler)[id] == handler,
        other != id ==> before.update(id, handler)[other] == before[other],
{
}

/// A handler that is registered stays so: what may be registered displaces nothing.
pub proof fn registered_handler_stays(
    table: &HandlerTable,
    interrupt: Interrupt,
    handler: usize,
    slot: int,
)
    requires
        interrupt.number() is Some,
        HandlerTable::has_slot(interrupt),
        !table.conflicts(interrupt, handler),
        0 <= slot < HANDLER_COUNT,
        table@[slot] != 0,
    ensures
        table@.update(interrupt.number()->0 as int, handler)[slot] == table@[slot],
{
}

} // verus!
