//! Package-sensitive facts: which MIO pins are brought out and where peripherals
//! can be routed.
use vstd::prelude::*;

use crate::gpio::{MuxConfig, MIO_COUNT};
use crate::i2c::I2cId;
use crate::uart::sealed::{PinDirection, PinMetadata};
use crate::uart::UartId;

verus! {

/// Packages differ in the pins that they bring out.
#[derive(Debug, Clone, Copy, PartialEq, Eq, Structural)]
pub enum Package {
    /// All MIO pins.
    Full,
    /// The 7z010 and 7z007s in the CLG225 package.
    Clg225,
}

impl Package {
    /// The pin is brought out.
    pub open spec fn bonds(self, pin: int) -> bool {
        &&& 0 <= pin < MIO_COUNT
        &&& self is Clg225 ==> !(16 <= pin <= 27) && !(40 <= pin <= 47) && pin != 50 && pin != 51
    }

    pub fn brings_out(self, pin: u8) -> (r: bool)
        ensures
            r == self.bonds(pin as int),
    {
        if pin >= MIO_COUNT {
            return false;
        }
        match self {
            Package::Full => true,
            Package::Clg225 => !(16 <= pin && pin <= 27) && !(40 <= pin && pin <= 47) && pin != 50
                && pin != 51,
        }
    }
}

/// Every group of four pins routes one I2C controller, and the groups alternate.
pub open spec fn is_i2c_pair(package: Package, id: I2cId, scl: int, sda: int) -> bool {
    &&& package.bonds(scl)
    &&& package.bonds(sda)
    &&& sda == scl + 1
    &&& match id {
        I2cId::I2c0 => scl >= 10 && scl % 4 == 2,
        I2cId::I2c1 => scl >= 12 && scl % 4 == 0,
    }
}

/// Whether the pins form a legal pair of the controller.
pub fn i2c_pair_supported(package: Package, id: I2cId, scl: u8, sda: u8) -> (r: bool)
    ensures
        r == is_i2c_pair(package, id, scl as int, sda as int),
{
    if !package.brings_out(scl) || !package.brings_out(sda) || sda != scl + 1 {
        return false;
    }
    match id {
        I2cId::I2c0 => scl >= 10 && scl % 4 == 2,
        I2cId::I2c1 => scl >= 12 && scl % 4 == 0,
    }
}

/// The transmit and receive pins of a UART route belong together.
pub open spec fn is_uart_route(package: Package, id: UartId, tx: int, rx: int) -> bool {
    &&& package.bonds(tx)
    &&& package.bonds(rx)
    &&& match id {
        UartId::Uart0 => tx >= 11 && tx % 4 == 3 && rx == tx - 1,
        UartId::Uart1 => tx >= 8 && tx % 4 == 0 && rx == tx + 1,
    }
}

/// Whether the pins form a legal route of the UART.
pub fn uart_route_supported(package: Package, id: UartId, tx: u8, rx: u8) -> (r: bool)
    ensures
        r == is_uart_route(package, id, tx as int, rx as int),
{
    if !package.brings_out(tx) || !package.brings_out(rx) {
        return false;
    }
    match id {
        UartId::Uart0 => tx >= 11 && tx % 4 == 3 && rx == tx - 1,
        UartId::Uart1 => tx >= 8 && tx % 4 == 0 && rx == tx + 1,
    }
}

/// The transmit pin of the route that `pin` belongs to, if it has one.
pub open spec fn uart_route_tx(id: UartId, pin: int, direction: PinDirection) -> int {
    match (id, direction) {
        (UartId::Uart0, PinDirection::Rx) => pin + 1,
        (UartId::Uart1, PinDirection::Rx) => pin - 1,
        (_, PinDirection::Tx) => pin,
    }
}

/// Routing of a UART pin in a direction, if it is legal. The two pins of a route
/// share its number.
pub fn uart_pin_metadata(package: Package, id: UartId, pin: u8, direction: PinDirection) -> (r:
    Option<PinMetadata>)
    ensures
        ({
            let tx = uart_route_tx(id, pin as int, direction);
            let rx = if id is Uart0 {
                tx - 1
            } else {
                tx + 1
            };
            r == if is_uart_route(package, id, tx, rx) {
                Some(
                    PinMetadata {
                        mio: pin,
                        direction,
                        route_id: (tx / 4) as u8,
                        mux_config: MuxConfig { l3: 7, l2: 0, l1: false, l0: false },
                    },
                )
            } else {
                None
            }
        }),
{
    if pin >= MIO_COUNT {
        return None;
    }
    let tx: u8 = match direction {
        PinDirection::Tx => pin,
        PinDirection::Rx => match id {
            UartId::Uart0 => pin + 1,
            UartId::Uart1 => {
                if pin == 0 {
                    return None;
                }
                pin - 1
            },
        },
    };
    let rx: u8 = match id {
        UartId::Uart0 => {
            if tx == 0 {
                return None;
            }
            tx - 1
        },
        UartId::Uart1 => tx + 1,
    };
    if !uart_route_supported(package, id, tx, rx) {
        return None;
    }
    Some(
        PinMetadata {
            mio: pin,
            direction,
            route_id: tx / 4,
            mux_config: MuxConfig::new_with_l3(0b111),
        },
    )
}

/// A pin serves at most one direction of one UART.
pub proof fn uart_pins_have_one_function(a: UartId, a_tx: int, a_rx: int, b: UartId, b_tx: int, b_rx: int)
    requires
        is_uart_route(Package::Full, a, a_tx, a_rx),
        is_uart_route(Package::Full, b, b_tx, b_rx),
    ensures
        a_tx != b_rx,
        a_tx == b_tx || a_rx == b_rx ==> a == b && a_tx == b_tx && a_rx == b_rx,
{
}

/// Signals of the quad-SPI controller.
#[derive(Debug, Clone, Copy, PartialEq, Eq, Structural)]
pub enum QspiSignal {
    ChipSelect0,
    Io0,
    Io1,
    Io2,
    Io3,
    Clock,
    ChipSelect1,
    FeedbackClock,
}

/// The one pin that carries a quad-SPI signal.
pub open spec fn qspi_pin_of(signal: QspiSignal) -> u8 {
    match signal {
        QspiSignal::ChipSelect1 => 0,
        QspiSignal::ChipSelect0 => 1,
        QspiSignal::Io0 => 2,
        QspiSignal::Io1 => 3,
        QspiSignal::Io2 => 4,
        QspiSignal::Io3 => 5,
        QspiSignal::Clock => 6,
        QspiSignal::FeedbackClock => 8,
    }
}

pub fn qspi_pin(signal: QspiSignal) -> (r: u8)
    ensures
        r == qspi_pin_of(signal),
        r < MIO_COUNT,
{
    match signal {
        QspiSignal::ChipSelect1 => 0,
        QspiSignal::ChipSelect0 => 1,
        QspiSignal::Io0 => 2,
        QspiSignal::Io1 => 3,
        QspiSignal::Io2 => 4,
        QspiSignal::Io3 => 5,
        QspiSignal::Clock => 6,
        QspiSignal::FeedbackClock => 8,
    }
}

} // verus!
