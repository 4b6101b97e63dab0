//! Three UARTs that share a connection through a multiplexer in the programmable logic.
use vstd::prelude::*;

use crate::gpio::PinState;

verus! {

pub const AXI_UARTLITE_BASE_ADDR: u32 = 0x42C0_0000;

pub const AXI_UAR16550_BASE_ADDR: u32 = 0x43C0_0000;

/// What the multiplexer connects.
#[derive(Debug, Clone, Copy, PartialEq, Eq, Structural)]
pub enum UartSel {
    Uart0,
    Uartlite,
    Uart16550,
    Uart0ToUartlite,
    Uart0ToUart16550,
    UartliteToUart16550,
}

impl UartSel {
    /// The number by which the multiplexer knows the selection.
    pub open spec fn code(self) -> int {
        match self {
            UartSel::Uart0 => 0,
            UartSel::Uartlite => 1,
            UartSel::Uart16550 => 2,
            UartSel::Uart0ToUartlite => 3,
            UartSel::Uart0ToUart16550 => 4,
            UartSel::UartliteToUart16550 => 5,
        }
    }

    /// The level of a selection pin: the bit of the code.
    pub open spec fn level(self, pin: int) -> PinState {
        let shifted = if pin == 0 {
            self.code()
        } else if pin == 1 {
            self.code() / 2
        } else {
            self.code() / 4
        };
        if shifted % 2 == 1 {
            PinState::High
        } else {
            PinState::Low
        }
    }

    /// The selection that the program switches to. Only the three UARTs alone take turns.
    pub fn next(self) -> (r: Self)
        ensures
            r == match self {
                UartSel::Uart0 => UartSel::Uartlite,
                UartSel::Uartlite => UartSel::Uart16550,
                UartSel::Uart16550 => UartSel::Uart0,
                other => other,
            },
    {
        match self {
            UartSel::Uart0 => UartSel::Uartlite,
            UartSel::Uartlite => UartSel::Uart16550,
            UartSel::Uart16550 => UartSel::Uart0,
            UartSel::Uart0ToUartlite => UartSel::Uart0ToUartlite,
            UartSel::Uart0ToUart16550 => UartSel::Uart0ToUart16550,
            UartSel::UartliteToUart16550 => UartSel::UartliteToUart16550,
        }
    }
}

/// A level that one of the selection pins is driven to.
#[derive(Debug, Clone, Copy, PartialEq, Eq, Structural)]
pub struct PinWrite {
    pub pin: usize,
    pub level: PinState,
}

/// Drives the three selection pins.
#[derive(Debug, Clone, Copy, PartialEq, Eq)]
pub struct UartMultiplexer {
    /// The levels that were driven last.
    pub levels: [PinState; 3],
}

impl UartMultiplexer {
    /// Drives every pin low.
    pub fn new() -> (r: (Self, Vec<PinWrite>))
        ensures
            r.0.levels@ == seq![PinState::Low, PinState::Low, PinState::Low],
            r.1@ == seq![
                PinWrite { pin: 0, level: PinState::Low },
                PinWrite { pin: 1, level: PinState::Low },
                PinWrite { pin: 2, level: PinState::Low },
            ],
    {
        let writes: Vec<PinWrite> = vec![
            PinWrite { pin: 0, level: PinState::Low },
            PinWrite { pin: 1, level: PinState::Low },
            PinWrite { pin: 2, level: PinState::Low },
        ];
        (UartMultiplexer { levels: [PinState::Low, PinState::Low, PinState::Low] }, writes)
    }

    /// Drives the pins for a selection, the highest first.
    pub fn select(&mut self, sel: UartSel) -> (writes: Vec<PinWrite>)
        ensures
            final(self).levels@ == Seq::new(3, |i: int| sel.level(i)),
            writes@ == Seq::new(
                3,
                |i: int| PinWrite { pin: (2 - i) as usize, level: sel.level(2 - i) },
            ),
    {
        let low = PinState::Low;
        let high = PinState::High;
        let levels: [PinState; 3] = match sel {
            UartSel::Uart0 => [low, low, low],
            UartSel::Uartlite => [high, low, low],
            UartSel::Uart16550 => [low, high, low],
            UartSel::Uart0ToUartlite => [high, high, low],
            UartSel::Uart0ToUart16550 => [low, low, high],
            UartSel::UartliteToUart16550 => [high, low, high],
        };
        self.levels = levels;
        let writes: Vec<PinWrite> = vec![
            PinWrite { pin: 2, level: levels[2] },
            PinWrite { pin: 1, level: levels[1] },
            PinWrite { pin: 0, level: levels[0] },
        ];
        assert(levels@ =~= Seq::new(3, |i: int| sel.level(i)));
        assert(writes@ =~= Seq::new(
            3,
            |i: int| PinWrite { pin: (2 - i) as usize, level: sel.level(2 - i) },
        ));
        writes
    }
}

/// The levels of the three pins tell the selections apart.
pub proof fn levels_identify_the_selection(a: UartSel, b: UartSel)
    requires
        forall|pin: int| 0 <= pin < 3 ==> a.level(pin) == b.level(pin),
    ensures
        a == b,
{
    assert(a.level(0) == b.level(0));
    assert(a.level(1) == b.level(1));
    assert(a.level(2) == b.level(2));
}

/// The light that is switched after light `index` of `count`.
pub fn next_led(index: usize, count: usize) -> (r: usize)
    requires
        index < count,
    ensures
        r == (if index + 1 == count {
            0
        } else {
            index + 1
        }),
        r < count,
{
    let next: usize = index + 1;
    if next >= count {
        0
    } else {
        next
    }
}

} // verus!
