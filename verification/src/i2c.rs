//! I2C controllers: clock divisors, blocking transfers and interrupt-driven transfers.
//!
//! The blocking transfers are state machines that are fed with what the registers
//! say; the interrupt-driven ones keep their progress in an [`I2cAsyncContext`].
use vstd::prelude::*;

use crate::gpio::{self, AnyPin, GpioOp, LowLevelGpio, MuxConfig, PinOffset};
use crate::slcr::{self, AmbaClock, DualClockReset, SlcrOp};
use crate::Hertz;

pub mod laws;

verus! {

pub const FIFO_DEPTH: usize = 16;

pub const MAX_READ_SIZE: usize = 255;

/// Processor cycles for which a controller is held in reset.
pub const RESET_CYCLES: u32 = 3;

#[derive(Debug, Clone, Copy, PartialEq, Eq, Structural)]
pub enum I2cId {
    I2c0,
    I2c1,
}

impl I2cId {
    pub fn index(self) -> (r: usize)
        ensures
            r == (if self is I2c0 {
                0int
            } else {
                1
            }),
    {
        match self {
            I2cId::I2c0 => 0,
            I2cId::I2c1 => 1,
        }
    }
}

#[derive(Debug, Clone, Copy, PartialEq, Eq, Structural)]
pub enum I2cSpeed {
    Normal100kHz,
    HighSpeed400KHz,
}

impl I2cSpeed {
    /// The frequency that is aimed at: below the nominal one, because of rise times.
    pub open spec fn target(self) -> u32 {
        match self {
            I2cSpeed::Normal100kHz => 90_000,
            I2cSpeed::HighSpeed400KHz => 384_600,
        }
    }

    pub fn frequency_full_number(&self) -> (r: Hertz)
        ensures
            r.hz == (match *self {
                I2cSpeed::Normal100kHz => 100_000u32,
                I2cSpeed::HighSpeed400KHz => 400_000u32,
            }),
    {
        match self {
            I2cSpeed::Normal100kHz => Hertz::from_raw(100_000),
            I2cSpeed::HighSpeed400KHz => Hertz::from_raw(400_000),
        }
    }

    pub fn frequency_for_calculation(&self) -> (r: Hertz)
        ensures
            r.hz == self.target(),
    {
        match self {
            I2cSpeed::Normal100kHz => Hertz::from_raw(90_000),
            I2cSpeed::HighSpeed400KHz => Hertz::from_raw(384_600),
        }
    }
}

/// The speed is not attainable.
#[derive(Debug, Clone, Copy, PartialEq, Eq, Structural)]
pub struct I2cSpeedNotAttainable;

/// What was not acknowledged.
#[derive(Debug, Clone, Copy, PartialEq, Eq, Structural)]
pub enum NoAcknowledgeSource {
    Address,
    Data,
    Unknown,
}

#[derive(Debug, Clone, Copy, PartialEq, Eq, Structural)]
pub enum I2cTxError {
    ArbitrationLoss,
    Nack(NoAcknowledgeSource),
    TxOverflow,
    Timeout,
}

#[derive(Debug, Clone, Copy, PartialEq, Eq, Structural)]
pub enum I2cRxError {
    ArbitrationLoss,
    Nack(NoAcknowledgeSource),
    RxUnderflow,
    RxOverflow,
    Timeout,
    /// More than [`MAX_READ_SIZE`] bytes were asked for.
    ReadDataLenTooLarge,
}

#[derive(Debug, Clone, Copy, PartialEq, Eq, Structural)]
pub enum I2cError {
    ArbitrationLoss,
    Nack(NoAcknowledgeSource),
    TxOverflow,
    RxUnderflow,
    RxOverflow,
    Timeout,
    /// More than [`MAX_READ_SIZE`] bytes were asked for.
    ReadDataLenTooLarge,
    UnsupportedTransaction,
}

/// Kinds of errors that callers tell apart.
#[derive(Debug, Clone, Copy, PartialEq, Eq, Structural)]
pub enum ErrorKind {
    ArbitrationLoss,
    NoAcknowledge(NoAcknowledgeSource),
    Overrun,
    Other,
}

impl I2cError {
    pub fn kind(&self) -> (r: ErrorKind)
        ensures
            r == match *self {
                I2cError::ArbitrationLoss => ErrorKind::ArbitrationLoss,
                I2cError::Nack(source) => ErrorKind::NoAcknowledge(source),
                I2cError::RxOverflow => ErrorKind::Overrun,
                _ => ErrorKind::Other,
            },
    {
        match self {
            I2cError::ArbitrationLoss => ErrorKind::ArbitrationLoss,
            I2cError::Nack(source) => ErrorKind::NoAcknowledge(*source),
            I2cError::RxOverflow => ErrorKind::Overrun,
            I2cError::TxOverflow
            | I2cError::RxUnderflow
            | I2cError::Timeout
            | I2cError::ReadDataLenTooLarge
            | I2cError::UnsupportedTransaction => ErrorKind::Other,
        }
    }
}

impl From<I2cRxError> for I2cError {
    fn from(err: I2cRxError) -> (r: Self) {
        match err {
            I2cRxError::ArbitrationLoss => I2cError::ArbitrationLoss,
            I2cRxError::Nack(nack) => I2cError::Nack(nack),
            I2cRxError::RxUnderflow => I2cError::RxUnderflow,
            I2cRxError::RxOverflow => I2cError::RxOverflow,
            I2cRxError::Timeout => I2cError::Timeout,
            I2cRxError::ReadDataLenTooLarge => I2cError::ReadDataLenTooLarge,
        }
    }
}

impl vstd::std_specs::convert::FromSpecImpl<I2cRxError> for I2cError {
    open spec fn obeys_from_spec() -> bool {
        true
    }

    open spec fn from_spec(err: I2cRxError) -> Self {
        match err {
            I2cRxError::ArbitrationLoss => I2cError::ArbitrationLoss,
            I2cRxError::Nack(nack) => I2cError::Nack(nack),
            I2cRxError::RxUnderflow => I2cError::RxUnderflow,
            I2cRxError::RxOverflow => I2cError::RxOverflow,
            I2cRxError::Timeout => I2cError::Timeout,
            I2cRxError::ReadDataLenTooLarge => I2cError::ReadDataLenTooLarge,
        }
    }
}

impl From<I2cTxError> for I2cError {
    fn from(err: I2cTxError) -> (r: Self) {
        match err {
            I2cTxError::ArbitrationLoss => I2cError::ArbitrationLoss,
            I2cTxError::Nack(nack) => I2cError::Nack(nack),
            I2cTxError::TxOverflow => I2cError::TxOverflow,
            I2cTxError::Timeout => I2cError::Timeout,
        }
    }
}

impl vstd::std_specs::convert::FromSpecImpl<I2cTxError> for I2cError {
    open spec fn obeys_from_spec() -> bool {
        true
    }

    open spec fn from_spec(err: I2cTxError) -> Self {
        match err {
            I2cTxError::ArbitrationLoss => I2cError::ArbitrationLoss,
            I2cTxError::Nack(nack) => I2cError::Nack(nack),
            I2cTxError::TxOverflow => I2cError::TxOverflow,
            I2cTxError::Timeout => I2cError::Timeout,
        }
    }
}

/// The bus clock for a divisor pair, both counted from one.
pub open spec fn bus_clock(cpu_hz: u32, a: int, b: int) -> int {
    cpu_hz as int / (22 * (a * b))
}

/// How far the bus clock for a divisor pair is from `target`.
pub open spec fn deviation(cpu_hz: u32, target: u32, a: int, b: int) -> int {
    let clock = bus_clock(cpu_hz, a, b);
    if clock > target {
        clock - target
    } else {
        target - clock
    }
}

/// The divisor pairs there are, in the order in which they are preferred: smaller
/// first divisor, then smaller second one.
pub open spec fn is_pair(a: int, b: int) -> bool {
    1 <= a <= 4 && 1 <= b <= 64
}

pub open spec fn comes_before(a1: int, b1: int, a2: int, b2: int) -> bool {
    a1 < a2 || (a1 == a2 && b1 < b2)
}

/// The pair deviates least, and no preferred pair deviates as little.
pub open spec fn is_best_pair(cpu_hz: u32, target: u32, a: int, b: int) -> bool {
    &&& is_pair(a, b)
    &&& forall|i: int, j: int| #[trigger]
        is_pair(i, j) ==> deviation(cpu_hz, target, a, b) <= deviation(cpu_hz, target, i, j)
    &&& forall|i: int, j: int| #[trigger]
        is_pair(i, j) && comes_before(i, j, a, b) ==> deviation(cpu_hz, target, a, b) < deviation(
            cpu_hz,
            target,
            i,
            j,
        )
}

/// Divisors of the bus clock, each one less than what it divides by.
#[derive(Debug, Clone, Copy, PartialEq, Eq, Structural)]
pub struct ClockConfig {
    pub div_a: u8,
    pub div_b: u8,
}

impl ClockConfig {
    /// The divisors fit their register fields: two and six bits.
    pub open spec fn wf(self) -> bool {
        self.div_a < 4 && self.div_b < 64
    }

    pub fn new(div_a: u8, div_b: u8) -> (r: Self)
        ensures
            r == (ClockConfig { div_a, div_b }),
    {
        ClockConfig { div_a, div_b }
    }

    pub fn div_a(&self) -> (r: u8)
        ensures
            r == self.div_a,
    {
        self.div_a
    }

    pub fn div_b(&self) -> (r: u8)
        ensures
            r == self.div_b,
    {
        self.div_b
    }
}

/// The bus clock that a configuration gives.
pub fn calculate_i2c_speed(cpu_1x_clk: Hertz, clk_config: ClockConfig) -> (r: Hertz)
    ensures
        r.hz == bus_clock(cpu_1x_clk.hz, clk_config.div_a + 1, clk_config.div_b + 1),
{
    let a: u32 = clk_config.div_a as u32 + 1;
    let b: u32 = clk_config.div_b as u32 + 1;
    assert(1 <= a * b <= 65536) by (nonlinear_arith)
        requires
            1 <= a <= 256,
            1 <= b <= 256,
    ;
    cpu_1x_clk.divided_by(22 * (a * b))
}

/// The divisor pair whose bus clock is closest to the speed, unless even the
/// largest divisors leave it too fast.
pub fn calculate_divisors(cpu_1x_clk: Hertz, speed: I2cSpeed) -> (r: Result<
    ClockConfig,
    I2cSpeedNotAttainable,
>)
    ensures
        r is Err <==> cpu_1x_clk.hz > 22 * 64 * 4 * speed.target(),
        r is Ok ==> r->Ok_0.wf() && is_best_pair(
            cpu_1x_clk.hz,
            speed.target(),
            r->Ok_0.div_a + 1,
            r->Ok_0.div_b + 1,
        ),
{
    let target: u32 = speed.frequency_for_calculation().raw();
    let cpu_hz: u32 = cpu_1x_clk.raw();
    if cpu_hz > 22 * 64 * 4 * target {
        return Err(I2cSpeedNotAttainable);
    }
    let mut smallest: u32 = u32::MAX;
    let mut best_a: u32 = 1;
    let mut best_b: u32 = 1;
    let mut a: u32 = 1;
    while a <= 4
        invariant
            1 <= a <= 5,
            target == 90_000 || target == 384_600,
            cpu_hz <= 22 * 64 * 4 * target,
            is_pair(best_a as int, best_b as int),
            a == 1 ==> smallest == u32::MAX && best_a == 1 && best_b == 1,
            a > 1 ==> smallest == deviation(cpu_hz, target, best_a as int, best_b as int),
            a > 1 ==> best_a < a,
            forall|i: int, j: int| #[trigger]
                is_pair(i, j) && i < a ==> smallest <= deviation(cpu_hz, target, i, j),
            forall|i: int, j: int| #[trigger]
                is_pair(i, j) && i < a && comes_before(i, j, best_a as int, best_b as int)
                    ==> smallest < deviation(cpu_hz, target, i, j),
        decreases 5 - a,
    {
        let mut b: u32 = 1;
        while b <= 64
            invariant
                1 <= a <= 4,
                1 <= b <= 65,
                target == 90_000 || target == 384_600,
                cpu_hz <= 22 * 64 * 4 * target,
                is_pair(best_a as int, best_b as int),
                a == 1 && b == 1 ==> smallest == u32::MAX && best_a == 1 && best_b == 1,
                a > 1 || b > 1 ==> smallest == deviation(
                    cpu_hz,
                    target,
                    best_a as int,
                    best_b as int,
                ),
                a > 1 || b > 1 ==> comes_before(best_a as int, best_b as int, a as int, b as int),
                forall|i: int, j: int| #[trigger]
                    is_pair(i, j) && comes_before(i, j, a as int, b as int) ==> smallest
                        <= deviation(cpu_hz, target, i, j),
                forall|i: int, j: int| #[trigger]
                    is_pair(i, j) && comes_before(i, j, a as int, b as int) && comes_before(
                        i,
                        j,
                        best_a as int,
                        best_b as int,
                    ) ==> smallest < deviation(cpu_hz, target, i, j),
            decreases 65 - b,
        {
            assert(1 <= a * b <= 256) by (nonlinear_arith)
                requires
                    1 <= a <= 4,
                    1 <= b <= 64,
            ;
            let i2c_clock: u32 = cpu_hz / (22 * (a * b));
            let off: u32 = if i2c_clock > target {
                i2c_clock - target
            } else {
                target - i2c_clock
            };
            assert(i2c_clock == bus_clock(cpu_hz, a as int, b as int));
            assert(i2c_clock <= cpu_hz) by (nonlinear_arith)
                requires
                    i2c_clock == cpu_hz / (22 * (a * b)) as u32,
                    1 <= a * b <= 256,
            ;
            assert(off == deviation(cpu_hz, target, a as int, b as int));
            assert(off < u32::MAX);
            if off < smallest {
                smallest = off;
                best_a = a;
                best_b = b;
            }
            assert(is_pair(a as int, b as int));
            b += 1;
        }
        a += 1;
    }
    Ok(ClockConfig::new((best_a - 1) as u8, (best_b - 1) as u8))
}

/// The best divisor pair is unique, so the divisors are determined by clock and speed.
pub proof fn best_pair_is_unique(
    cpu_hz: u32,
    target: u32,
    a1: int,
    b1: int,
    a2: int,
    b2: int,
)
    requires
        is_best_pair(cpu_hz, target, a1, b1),
        is_best_pair(cpu_hz, target, a2, b2),
    ensures
        a1 == a2,
        b1 == b2,
{
    assert(is_pair(a1, b1) && is_pair(a2, b2));
}

#[derive(Debug, Clone, Copy, PartialEq, Eq, Structural)]
pub struct Config {
    pub clock_config: ClockConfig,
}

impl Config {
    pub fn new(clock_config: ClockConfig) -> (r: Self)
        ensures
            r.clock_config == clock_config,
    {
        Config { clock_config }
    }
}

#[derive(Debug, Clone, Copy, PartialEq, Eq, Structural)]
pub enum Direction {
    Transmitter,
    Receiver,
}

/// Fields of the control register.
#[derive(Debug, Clone, Copy, PartialEq, Eq, Structural)]
pub struct Control {
    pub div_a: u8,
    pub div_b: u8,
    pub clear_fifo: bool,
    pub slv_mon: bool,
    pub hold_bus: bool,
    pub acken: bool,
    pub addressing: bool,
    pub master: bool,
    pub dir: Direction,
}

/// An update of the control register.
#[derive(Debug, Clone, Copy, PartialEq, Eq, Structural)]
pub enum ControlUpdate {
    ClearHold,
    /// Set up a write that keeps the bus unless a stop follows.
    ConfigureWrite { generate_stop: bool },
    /// Set up a read. The bus is kept where no stop follows, where the data does
    /// not fit the FIFO, and where it was kept before.
    ConfigureRead { len: usize, generate_stop: bool },
    /// Leave no trace of a transfer.
    CleanUp,
}

impl ControlUpdate {
    pub open spec fn applied(self, cr: Control) -> Control {
        match self {
            ControlUpdate::ClearHold => Control { hold_bus: false, ..cr },
            ControlUpdate::ConfigureWrite { generate_stop } => Control {
                acken: true,
                master: true,
                clear_fifo: true,
                dir: Direction::Transmitter,
                hold_bus: !generate_stop,
                ..cr
            },
            ControlUpdate::ConfigureRead { len, generate_stop } => Control {
                acken: true,
                master: true,
                clear_fifo: true,
                dir: Direction::Receiver,
                hold_bus: !generate_stop || len > FIFO_DEPTH || cr.hold_bus,
                ..cr
            },
            ControlUpdate::CleanUp => Control {
                acken: false,
                hold_bus: false,
                clear_fifo: true,
                ..cr
            },
        }
    }

    /// The control register after the update.
    pub fn apply(self, cr: Control) -> (r: Control)
        ensures
            r == self.applied(cr),
    {
        match self {
            ControlUpdate::ClearHold => Control { hold_bus: false, ..cr },
            ControlUpdate::ConfigureWrite { generate_stop } => Control {
                acken: true,
                master: true,
                clear_fifo: true,
                dir: Direction::Transmitter,
                hold_bus: !generate_stop,
                ..cr
            },
            ControlUpdate::ConfigureRead { len, generate_stop } => Control {
                acken: true,
                master: true,
                clear_fifo: true,
                dir: Direction::Receiver,
                hold_bus: !generate_stop || len > FIFO_DEPTH || cr.hold_bus,
                ..cr
            },
            ControlUpdate::CleanUp => Control {
                acken: false,
                hold_bus: false,
                clear_fifo: true,
                ..cr
            },
        }
    }
}

/// Interrupt status and control bits.
#[derive(Debug, Clone, Copy, PartialEq, Eq, Structural)]
pub struct InterruptStatus {
    pub arbitration_lost: bool,
    pub rx_underflow: bool,
    pub tx_overflow: bool,
    pub rx_overflow: bool,
    pub slave_ready: bool,
    pub timeout: bool,
    pub nack: bool,
    pub data: bool,
    pub complete: bool,
}

pub open spec fn all_interrupts() -> InterruptStatus {
    InterruptStatus {
        arbitration_lost: true,
        rx_underflow: true,
        tx_overflow: true,
        rx_overflow: true,
        slave_ready: true,
        timeout: true,
        nack: true,
        data: true,
        complete: true,
    }
}

/// The interrupts of a transmission: no receiver faults.
pub open spec fn tx_interrupts() -> InterruptStatus {
    InterruptStatus {
        rx_underflow: false,
        rx_overflow: false,
        slave_ready: false,
        ..all_interrupts()
    }
}

/// The interrupts of a reception: no transmitter faults.
pub open spec fn rx_interrupts() -> InterruptStatus {
    InterruptStatus { tx_overflow: false, slave_ready: false, ..all_interrupts() }
}

/// One access to a controller.
#[derive(Debug, Clone, Copy, PartialEq, Eq, Structural)]
pub enum I2cOp {
    Slcr(SlcrOp),
    WriteControl(Control),
    ModifyControl(ControlUpdate),
    WriteAddress(u8),
    WriteTransferSize(u32),
    DisableInterrupts(InterruptStatus),
    EnableInterrupts(InterruptStatus),
    /// Write the interrupt status back to itself.
    ClearInterrupts,
    /// Acknowledge what was read.
    WriteInterruptStatus(InterruptStatus),
}

pub fn disable_interrupts() -> (op: I2cOp)
    ensures
        op == I2cOp::DisableInterrupts(all_interrupts()),
{
    I2cOp::DisableInterrupts(
        InterruptStatus {
            arbitration_lost: true,
            rx_underflow: true,
            tx_overflow: true,
            rx_overflow: true,
            slave_ready: true,
            timeout: true,
            nack: true,
            data: true,
            complete: true,
        },
    )
}

pub fn enable_tx_interrupts() -> (op: I2cOp)
    ensures
        op == I2cOp::EnableInterrupts(tx_interrupts()),
{
    I2cOp::EnableInterrupts(
        InterruptStatus {
            arbitration_lost: true,
            rx_underflow: false,
            tx_overflow: true,
            rx_overflow: false,
            slave_ready: false,
            timeout: true,
            nack: true,
            data: true,
            complete: true,
        },
    )
}

pub fn enable_rx_interrupts() -> (op: I2cOp)
    ensures
        op == I2cOp::EnableInterrupts(rx_interrupts()),
{
    I2cOp::EnableInterrupts(
        InterruptStatus {
            arbitration_lost: true,
            rx_underflow: true,
            tx_overflow: false,
            rx_overflow: true,
            slave_ready: false,
            timeout: true,
            nack: true,
            data: true,
            complete: true,
        },
    )
}

/// Only the last operation of a transaction releases the bus.
pub fn generate_stop_for_index(idx: usize, operation_count: usize) -> (r: bool)
    requires
        idx < usize::MAX,
    ensures
        r == (idx + 1 == operation_count),
{
    idx + 1 == operation_count
}

/// Nothing has to be transferred.
pub fn read_completes_immediately(len: usize) -> (r: bool)
    ensures
        r == (len == 0),
{
    len == 0
}

/// How many bytes go into a transmit FIFO that holds `fill` bytes.
pub open spec fn fill_count(fill: int, remaining: int) -> int {
    if FIFO_DEPTH - fill < remaining {
        FIFO_DEPTH - fill
    } else {
        remaining
    }
}

fn bytes_to_write(fill: usize, remaining: usize) -> (r: usize)
    requires
        fill <= FIFO_DEPTH,
    ensures
        r == fill_count(fill as int, remaining as int),
{
    let room: usize = FIFO_DEPTH - fill;
    if room < remaining {
        room
    } else {
        remaining
    }
}

/// Result of looking for a transmit fault.
#[derive(Debug, Clone, Copy, PartialEq, Eq, Structural)]
pub enum TxCheck {
    Clear,
    /// Clean up and report the error.
    Fault(I2cTxError),
    /// Clean up, read how much is left in the FIFO and ask [`WriteTransfer::nack_error`].
    Nacked,
}

/// Transmit faults in order of precedence.
pub open spec fn tx_fault(isr: InterruptStatus) -> TxCheck {
    if isr.tx_overflow {
        TxCheck::Fault(I2cTxError::TxOverflow)
    } else if isr.arbitration_lost {
        TxCheck::Fault(I2cTxError::ArbitrationLoss)
    } else if isr.nack {
        TxCheck::Nacked
    } else if isr.timeout {
        TxCheck::Fault(I2cTxError::Timeout)
    } else {
        TxCheck::Clear
    }
}

pub fn check_and_handle_tx_errors(isr: InterruptStatus) -> (r: TxCheck)
    ensures
        r == tx_fault(isr),
{
    if isr.tx_overflow {
        return TxCheck::Fault(I2cTxError::TxOverflow);
    }
    if isr.arbitration_lost {
        return TxCheck::Fault(I2cTxError::ArbitrationLoss);
    }
    if isr.nack {
        return TxCheck::Nacked;
    }
    if isr.timeout {
        return TxCheck::Fault(I2cTxError::Timeout);
    }
    TxCheck::Clear
}

/// Receive faults in order of precedence. Before the first byte, what was not
/// acknowledged is the address.
pub open spec fn rx_fault(read_count: int, isr: InterruptStatus) -> Option<I2cRxError> {
    if isr.rx_overflow {
        Some(I2cRxError::RxOverflow)
    } else if isr.rx_underflow {
        Some(I2cRxError::RxUnderflow)
    } else if isr.nack {
        Some(
            I2cRxError::Nack(
                if read_count == 0 {
                    NoAcknowledgeSource::Address
                } else {
                    NoAcknowledgeSource::Data
                },
            ),
        )
    } else if isr.timeout {
        Some(I2cRxError::Timeout)
    } else {
        None
    }
}

pub fn check_and_handle_rx_errors(read_count: usize, isr: InterruptStatus) -> (r: Option<
    I2cRxError,
>)
    ensures
        r == rx_fault(read_count as int, isr),
{
    if isr.rx_overflow {
        return Some(I2cRxError::RxOverflow);
    }
    if isr.rx_underflow {
        return Some(I2cRxError::RxUnderflow);
    }
    if isr.nack {
        if read_count == 0 {
            return Some(I2cRxError::Nack(NoAcknowledgeSource::Address));
        }
        return Some(I2cRxError::Nack(NoAcknowledgeSource::Data));
    }
    if isr.timeout {
        return Some(I2cRxError::Timeout);
    }
    None
}

/// A blocking write in progress.
#[derive(Debug, Clone, Copy, PartialEq, Eq, Structural)]
pub struct WriteTransfer {
    pub address: u8,
    pub len: usize,
    pub generate_stop: bool,
    pub written: usize,
    /// Bytes of the latest chunk.
    pub chunk_len: usize,
    pub first_cycle: bool,
    pub addr_set: bool,
}

/// A chunk to write into the FIFO: bytes `first` to `first + count` of the data,
/// then the address where the transfer has not started yet.
#[derive(Debug, Clone, Copy, PartialEq, Eq, Structural)]
pub struct TxChunk {
    pub first: usize,
    pub count: usize,
    pub start: Option<u8>,
}

/// What follows a look at a busy transmitter.
#[derive(Debug, Clone, Copy, PartialEq, Eq, Structural)]
pub enum TxStep {
    /// Look again.
    Wait,
    /// Fill the FIFO again.
    Refill,
    /// All bytes are written: wait for completion.
    Finish,
    Fault(TxCheck),
}

impl WriteTransfer {
    pub open spec fn wf(self) -> bool {
        self.written <= self.len
    }

    /// Starts a write, with the accesses that set it up.
    pub fn new(address: u8, len: usize, generate_stop: bool) -> (r: (Self, Vec<I2cOp>))
        ensures
            r.0.wf(),
            r.0 == (WriteTransfer {
                address,
                len,
                generate_stop,
                written: 0,
                chunk_len: 0,
                first_cycle: true,
                addr_set: false,
            }),
            r.1@ == blocking_write_ops(generate_stop),
    {
        let mut ops: Vec<I2cOp> = Vec::new();
        ops.push(I2cOp::ModifyControl(ControlUpdate::ConfigureWrite { generate_stop }));
        ops.push(I2cOp::ClearInterrupts);
        (
            WriteTransfer {
                address,
                len,
                generate_stop,
                written: 0,
                chunk_len: 0,
                first_cycle: true,
                addr_set: false,
            },
            ops,
        )
    }

    /// The next chunk, for a FIFO that holds `fill` bytes.
    pub fn fill(&mut self, fill: usize) -> (chunk: TxChunk)
        requires
            old(self).wf(),
            fill <= FIFO_DEPTH,
        ensures
            final(self).wf(),
            chunk.first == old(self).written,
            chunk.count == fill_count(fill as int, old(self).len - old(self).written),
            chunk.start == (if old(self).addr_set {
                None
            } else {
                Some(old(self).address)
            }),
            *final(self) == (WriteTransfer {
                written: (old(self).written + chunk.count) as usize,
                chunk_len: chunk.count,
                addr_set: true,
                ..*old(self)
            }),
            fill + chunk.count <= FIFO_DEPTH,
    {
        let first: usize = self.written;
        let count: usize = bytes_to_write(fill, self.len - self.written);
        let start: Option<u8> = if self.addr_set {
            None
        } else {
            Some(self.address)
        };
        self.written = self.written + count;
        self.chunk_len = count;
        self.addr_set = true;
        TxChunk { first, count, start }
    }

    /// One look at the transmitter while a chunk goes out.
    pub fn poll_busy(&mut self, tx_busy: bool, isr: InterruptStatus) -> (r: TxStep)
        requires
            old(self).wf(),
        ensures
            final(self).wf(),
            r == if tx_busy {
                if tx_fault(isr) is Clear {
                    TxStep::Wait
                } else {
                    TxStep::Fault(tx_fault(isr))
                }
            } else if old(self).written == old(self).len {
                TxStep::Finish
            } else {
                TxStep::Refill
            },
            *final(self) == (WriteTransfer {
                first_cycle: old(self).first_cycle && tx_busy,
                ..*old(self)
            }),
    {
        if tx_busy {
            let check = check_and_handle_tx_errors(isr);
            return match check {
                TxCheck::Clear => TxStep::Wait,
                _ => TxStep::Fault(check),
            };
        }
        self.first_cycle = false;
        if self.written == self.len {
            TxStep::Finish
        } else {
            TxStep::Refill
        }
    }

    /// Waiting for completion, once every byte is written. `complete` and `isr` are
    /// two reads of the status.
    pub fn poll_complete(&self, complete: bool, isr: InterruptStatus) -> (r: Option<TxCheck>)
        requires
            self.wf(),
            self.written == self.len,
        ensures
            r == if complete {
                Some(TxCheck::Clear)
            } else if tx_fault(isr) is Clear {
                None
            } else {
                Some(tx_fault(isr))
            },
    {
        if complete {
            return Some(TxCheck::Clear);
        }
        let check = check_and_handle_tx_errors(isr);
        match check {
            TxCheck::Clear => None,
            _ => Some(check),
        }
    }

    /// The accesses after completion.
    pub fn finish(&self) -> (ops: Vec<I2cOp>)
        ensures
            ops@ == blocking_write_finish_ops(self.generate_stop),
    {
        let mut ops: Vec<I2cOp> = Vec::new();
        if self.generate_stop {
            ops.push(I2cOp::ModifyControl(ControlUpdate::ClearHold));
        }
        assert(ops@ =~= if self.generate_stop {
            seq![I2cOp::ModifyControl(ControlUpdate::ClearHold)]
        } else {
            Seq::empty()
        });
        ops
    }

    /// What was not acknowledged, from what is left in the FIFO after cleaning up.
    /// In the first cycle, all but one byte of the chunk left means the address.
    pub fn nack_error(&self, left: usize) -> (r: I2cTxError)
        requires
            left < usize::MAX,
        ensures
            r == I2cTxError::Nack(
                if self.first_cycle && left + 1 == self.chunk_len {
                    NoAcknowledgeSource::Address
                } else {
                    NoAcknowledgeSource::Data
                },
            ),
    {
        if self.first_cycle && left + 1 == self.chunk_len {
            return I2cTxError::Nack(NoAcknowledgeSource::Address);
        }
        I2cTxError::Nack(NoAcknowledgeSource::Data)
    }
}

/// A blocking read in progress.
#[derive(Debug, Clone, Copy, PartialEq, Eq, Structural)]
pub struct ReadTransfer {
    pub len: usize,
    pub generate_stop: bool,
    pub read: usize,
}

/// How a blocking read starts.
#[derive(Debug)]
pub enum ReadStart {
    /// Nothing is asked for.
    Done,
    /// Perform the accesses and report the error.
    Refused(Vec<I2cOp>, I2cRxError),
    /// Perform the accesses and poll the transfer.
    Running(Vec<I2cOp>, ReadTransfer),
}

/// What follows a look at the receiver.
#[derive(Debug, Clone, Copy, PartialEq, Eq, Structural)]
pub enum RxStep {
    /// Look again.
    Wait,
    /// Take bytes out of the FIFO while there are any.
    Drain,
    /// Clean up and report the error.
    Fault(I2cRxError),
}

impl ReadTransfer {
    pub open spec fn wf(self) -> bool {
        0 < self.len <= MAX_READ_SIZE && self.read <= self.len
    }

    /// Starts a read of `len` bytes.
    ///
    /// A read that is too large is refused after the control register was set up.
    pub fn start(address: u8, len: usize, generate_stop: bool) -> (r: ReadStart)
        requires
            len <= u32::MAX,
        ensures
            match r {
                ReadStart::Done => len == 0,
                ReadStart::Refused(ops, e) => {
                    &&& len > MAX_READ_SIZE
                    &&& e is ReadDataLenTooLarge
                    &&& ops@ == configure_read_ops(len, generate_stop)
                },
                ReadStart::Running(ops, t) => {
                    &&& 0 < len <= MAX_READ_SIZE
                    &&& t == (ReadTransfer { len, generate_stop, read: 0 })
                    &&& ops@ == blocking_read_ops(address, len, generate_stop)
                },
            },
    {
        if read_completes_immediately(len) {
            return ReadStart::Done;
        }
        let mut ops = configure_read_transfer(len, generate_stop);
        if len > MAX_READ_SIZE {
            return ReadStart::Refused(ops, I2cRxError::ReadDataLenTooLarge);
        }
        ops.push(I2cOp::ClearInterrupts);
        ops.push(I2cOp::WriteTransferSize(len as u32));
        ops.push(I2cOp::WriteAddress(address));
        assert(ops@ =~= configure_read_ops(len, generate_stop) + seq![
            I2cOp::ClearInterrupts,
            I2cOp::WriteTransferSize(len as u32),
            I2cOp::WriteAddress(address),
        ]);
        ReadStart::Running(ops, ReadTransfer { len, generate_stop, read: 0 })
    }

    /// One look at the receiver: a fault is reported before data is taken.
    pub fn poll_valid(&self, rx_valid: bool, isr: InterruptStatus) -> (r: RxStep)
        ensures
            r == match rx_fault(self.read as int, isr) {
                Some(e) => RxStep::Fault(e),
                None => if rx_valid {
                    RxStep::Drain
                } else {
                    RxStep::Wait
                },
            },
    {
        if let Some(e) = check_and_handle_rx_errors(self.read, isr) {
            return RxStep::Fault(e);
        }
        if rx_valid {
            RxStep::Drain
        } else {
            RxStep::Wait
        }
    }

    /// Stores the next received byte.
    pub fn store(&mut self, data: &mut [u8], byte: u8)
        requires
            old(self).wf(),
            old(self).read < old(self).len,
            old(data)@.len() == old(self).len,
        ensures
            final(self).wf(),
            final(data)@ == old(data)@.update(old(self).read as int, byte),
            *final(self) == (ReadTransfer { read: (old(self).read + 1) as usize, ..*old(self) }),
    {
        data[self.read] = byte;
        self.read = self.read + 1;
    }

    /// After draining, with `left` bytes still to come: whether the bus is released,
    /// and whether all bytes are in.
    pub fn after_drain(&self, left: usize) -> (r: (bool, bool))
        ensures
            r.0 == (self.generate_stop && left <= FIFO_DEPTH),
            r.1 == (self.read == self.len),
    {
        (self.generate_stop && left <= FIFO_DEPTH, self.read == self.len)
    }

    /// Waiting for completion, once every byte is stored. `complete` and `isr` are
    /// two reads of the status.
    pub fn poll_complete(&self, complete: bool, isr: InterruptStatus) -> (r: Option<
        Result<(), I2cRxError>,
    >)
        requires
            self.wf(),
            self.read == self.len,
        ensures
            r == if complete {
                Some(Ok::<(), I2cRxError>(()))
            } else {
                match rx_fault(self.read as int, isr) {
                    Some(e) => Some(Err(e)),
                    None => None,
                }
            },
    {
        if complete {
            return Some(Ok(()));
        }
        match check_and_handle_rx_errors(self.read, isr) {
            Some(e) => Some(Err(e)),
            None => None,
        }
    }

    /// The accesses after completion.
    pub fn finish(&self) -> (ops: Vec<I2cOp>)
        ensures
            ops@ == blocking_read_finish_ops(self.generate_stop),
    {
        let mut ops: Vec<I2cOp> = Vec::new();
        if self.generate_stop {
            ops.push(I2cOp::ModifyControl(ControlUpdate::ClearHold));
            ops.push(I2cOp::ModifyControl(ControlUpdate::CleanUp));
        }
        assert(ops@ =~= if self.generate_stop {
            seq![
                I2cOp::ModifyControl(ControlUpdate::ClearHold),
                I2cOp::ModifyControl(ControlUpdate::CleanUp),
            ]
        } else {
            Seq::empty()
        });
        ops
    }
}

/// What `data` holds after a blocking read has stored the bytes `delivered`, the first
/// of them in the first slot.
pub open spec fn stored(data: Seq<u8>, delivered: Seq<u8>) -> Seq<u8>
    decreases delivered.len(),
{
    if delivered.len() == 0 {
        data
    } else {
        stored(data, delivered.drop_last()).update(delivered.len() - 1, delivered.last())
    }
}

/// A blocking read that can complete has filled every slot, with the bytes that were
/// delivered, in their order.
pub proof fn completed_read_fills_every_slot(
    transfer: ReadTransfer,
    data: Seq<u8>,
    delivered: Seq<u8>,
)
    requires
        transfer.wf(),
        transfer.read == transfer.len,
        data.len() == transfer.len,
        delivered.len() == transfer.read,
    ensures
        stored(data, delivered) == delivered,
{
    lemma_stored_in_front(data, delivered);
    assert(stored(data, delivered) =~= delivered);
}

proof fn lemma_stored_in_front(data: Seq<u8>, delivered: Seq<u8>)
    requires
        delivered.len() <= data.len(),
    ensures
        stored(data, delivered) == delivered + data.skip(delivered.len() as int),
    decreases delivered.len(),
{
    if delivered.len() > 0 {
        lemma_stored_in_front(data, delivered.drop_last());
    }
    assert(stored(data, delivered) =~= delivered + data.skip(delivered.len() as int));
}

pub open spec fn configure_read_ops(len: usize, generate_stop: bool) -> Seq<I2cOp> {
    seq![
        I2cOp::ModifyControl(ControlUpdate::ConfigureRead { len, generate_stop }),
        I2cOp::WriteTransferSize(len as u32),
    ]
}

/// The start of a blocking read, of which the address is the last access.
pub open spec fn blocking_read_ops(address: u8, len: usize, generate_stop: bool) -> Seq<I2cOp> {
    configure_read_ops(len, generate_stop) + seq![
        I2cOp::ClearInterrupts,
        I2cOp::WriteTransferSize(len as u32),
        I2cOp::WriteAddress(address),
    ]
}

/// The set-up of a blocking write. The address follows the first bytes.
pub open spec fn blocking_write_ops(generate_stop: bool) -> Seq<I2cOp> {
    seq![
        I2cOp::ModifyControl(ControlUpdate::ConfigureWrite { generate_stop }),
        I2cOp::ClearInterrupts,
    ]
}

pub open spec fn blocking_write_finish_ops(generate_stop: bool) -> Seq<I2cOp> {
    if generate_stop {
        seq![I2cOp::ModifyControl(ControlUpdate::ClearHold)]
    } else {
        Seq::empty()
    }
}

pub open spec fn blocking_read_finish_ops(generate_stop: bool) -> Seq<I2cOp> {
    if generate_stop {
        seq![
            I2cOp::ModifyControl(ControlUpdate::ClearHold),
            I2cOp::ModifyControl(ControlUpdate::CleanUp),
        ]
    } else {
        Seq::empty()
    }
}

/// The set-up of an interrupt-driven write, before its first bytes.
pub open spec fn async_write_setup_ops(generate_stop: bool) -> Seq<I2cOp> {
    seq![
        I2cOp::DisableInterrupts(all_interrupts()),
        I2cOp::ModifyControl(ControlUpdate::ConfigureWrite { generate_stop }),
    ]
}

/// The start of an interrupt-driven write, after its first bytes.
pub open spec fn async_write_start_ops(address: u8) -> Seq<I2cOp> {
    seq![
        I2cOp::ClearInterrupts,
        I2cOp::EnableInterrupts(tx_interrupts()),
        I2cOp::WriteAddress(address),
    ]
}

pub open spec fn async_read_ops(address: u8, len: usize, generate_stop: bool) -> Seq<I2cOp> {
    seq![I2cOp::DisableInterrupts(all_interrupts())] + configure_read_ops(len, generate_stop)
        + seq![
        I2cOp::ClearInterrupts,
        I2cOp::EnableInterrupts(rx_interrupts()),
        I2cOp::WriteAddress(address),
    ]
}

/// What ends a transfer that is given up.
pub open spec fn cancel_ops() -> Seq<I2cOp> {
    seq![
        I2cOp::DisableInterrupts(all_interrupts()),
        I2cOp::ModifyControl(ControlUpdate::ClearHold),
        I2cOp::ModifyControl(ControlUpdate::CleanUp),
    ]
}

pub fn configure_read_transfer(len: usize, generate_stop: bool) -> (ops: Vec<I2cOp>)
    requires
        len <= u32::MAX,
    ensures
        ops@ == configure_read_ops(len, generate_stop),
{
    let mut ops: Vec<I2cOp> = Vec::new();
    ops.push(I2cOp::ModifyControl(ControlUpdate::ConfigureRead { len, generate_stop }));
    ops.push(I2cOp::WriteTransferSize(len as u32));
    ops
}

#[derive(Debug, Clone, Copy, PartialEq, Eq, Structural)]
pub enum I2cAsyncTransfer {
    Write,
    Read,
}

#[derive(Debug, Clone, Copy, PartialEq, Eq, Structural)]
pub enum I2cAsyncPhase {
    Write,
    Read,
}

/// Progress of an interrupt-driven transfer. Buffers are given by their addresses.
#[derive(Debug, Clone, Copy, PartialEq, Eq, Structural)]
pub struct I2cAsyncContext {
    pub transfer: Option<I2cAsyncTransfer>,
    pub phase: I2cAsyncPhase,
    pub address: u8,
    pub tx_ptr: usize,
    pub tx_len: usize,
    pub rx_ptr: usize,
    pub rx_len: usize,
    pub tx_progress: usize,
    pub rx_progress: usize,
    pub generate_stop: bool,
    pub error: Option<I2cError>,
}

/// No transfer.
pub open spec fn idle_context() -> I2cAsyncContext {
    I2cAsyncContext {
        transfer: None,
        phase: I2cAsyncPhase::Write,
        address: 0,
        tx_ptr: 0,
        tx_len: 0,
        rx_ptr: 0,
        rx_len: 0,
        tx_progress: 0,
        rx_progress: 0,
        generate_stop: true,
        error: None,
    }
}

/// What an interrupt asks for.
#[derive(Debug)]
pub enum InterruptStep {
    /// There is no transfer.
    Ignore,
    /// The transfer is over. Perform the accesses and wake the waiting task.
    Finished(Vec<I2cOp>),
    /// Read how much the FIFO holds, then go on with [`I2cAsyncContext::refill`].
    Transmit,
    /// Take bytes with [`I2cAsyncContext::store`] while there are any, read how much
    /// is still to come, then go on with [`I2cAsyncContext::after_drain`].
    Receive,
}

/// What follows the data phase of an interrupt.
#[derive(Debug)]
pub enum InterruptEnd {
    /// The transfer is over. Perform the accesses and wake the waiting task.
    Finished(Vec<I2cOp>),
    /// Perform the accesses; the transfer goes on.
    Continue(Vec<I2cOp>),
}

/// Faults of an interrupt-driven transfer in order of precedence. Each one is cleaned up.
pub open spec fn async_fault(context: I2cAsyncContext, isr: InterruptStatus) -> Option<I2cError> {
    if isr.arbitration_lost {
        Some(I2cError::ArbitrationLoss)
    } else if isr.timeout {
        Some(I2cError::Timeout)
    } else if isr.nack {
        let progress = match context.phase {
            I2cAsyncPhase::Write => context.tx_progress,
            I2cAsyncPhase::Read => context.rx_progress,
        };
        Some(
            I2cError::Nack(
                if progress == 0 {
                    NoAcknowledgeSource::Address
                } else {
                    NoAcknowledgeSource::Data
                },
            ),
        )
    } else {
        match context.phase {
            I2cAsyncPhase::Write => if isr.tx_overflow {
                Some(I2cError::TxOverflow)
            } else {
                None
            },
            I2cAsyncPhase::Read => if isr.rx_underflow {
                Some(I2cError::RxUnderflow)
            } else if isr.rx_overflow {
                Some(I2cError::RxOverflow)
            } else {
                None
            },
        }
    }
}

/// The accesses that end a transfer.
pub open spec fn finish_ops(context: I2cAsyncContext) -> Seq<I2cOp> {
    seq![I2cOp::DisableInterrupts(all_interrupts()), I2cOp::ClearInterrupts] + (
    if context.generate_stop {
        seq![
            I2cOp::ModifyControl(ControlUpdate::ClearHold),
            I2cOp::ModifyControl(ControlUpdate::CleanUp),
        ]
    } else {
        Seq::empty()
    })
}

pub fn async_i2c_error(context: &I2cAsyncContext, isr: InterruptStatus) -> (r: Option<I2cError>)
    ensures
        r == async_fault(*context, isr),
{
    if isr.arbitration_lost {
        return Some(I2cError::ArbitrationLoss);
    }
    if isr.timeout {
        return Some(I2cError::Timeout);
    }
    if isr.nack {
        let progress: usize = match context.phase {
            I2cAsyncPhase::Write => context.tx_progress,
            I2cAsyncPhase::Read => context.rx_progress,
        };
        return Some(
            I2cError::Nack(
                if progress == 0 {
                    NoAcknowledgeSource::Address
                } else {
                    NoAcknowledgeSource::Data
                },
            ),
        );
    }
    match context.phase {
        I2cAsyncPhase::Write => {
            if isr.tx_overflow {
                Some(I2cError::TxOverflow)
            } else {
                None
            }
        },
        I2cAsyncPhase::Read => {
            if isr.rx_underflow {
                Some(I2cError::RxUnderflow)
            } else if isr.rx_overflow {
                Some(I2cError::RxOverflow)
            } else {
                None
            }
        },
    }
}

impl I2cAsyncContext {
    pub open spec fn wf(self) -> bool {
        self.tx_progress <= self.tx_len && self.rx_progress <= self.rx_len
    }

    pub fn new() -> (r: Self)
        ensures
            r == idle_context(),
            r.wf(),
    {
        I2cAsyncContext {
            transfer: None,
            phase: I2cAsyncPhase::Write,
            address: 0,
            tx_ptr: 0,
            tx_len: 0,
            rx_ptr: 0,
            rx_len: 0,
            tx_progress: 0,
            rx_progress: 0,
            generate_stop: true,
            error: None,
        }
    }

    pub fn clear(&mut self)
        ensures
            *final(self) == idle_context(),
    {
        *self = Self::new();
    }

    /// Ends the transfer with a result, and gives the accesses for that.
    pub fn finish_i2c_transfer(&mut self, error: Option<I2cError>) -> (ops: Vec<I2cOp>)
        ensures
            *final(self) == (I2cAsyncContext { transfer: None, error, ..*old(self) }),
            ops@ == finish_ops(*old(self)),
    {
        let mut ops: Vec<I2cOp> = Vec::new();
        ops.push(disable_interrupts());
        ops.push(I2cOp::ClearInterrupts);
        if self.generate_stop {
            ops.push(I2cOp::ModifyControl(ControlUpdate::ClearHold));
            ops.push(I2cOp::ModifyControl(ControlUpdate::CleanUp));
        }
        assert(ops@ =~= finish_ops(*self));
        self.transfer = None;
        self.error = error;
        ops
    }

    /// The first half of an interrupt: a fault ends the transfer, otherwise its
    /// data phase follows.
    pub fn on_interrupt(&mut self, isr: InterruptStatus) -> (r: InterruptStep)
        requires
            old(self).wf(),
        ensures
            final(self).wf(),
            match r {
                InterruptStep::Ignore => old(self).transfer is None && *final(self) == *old(self),
                InterruptStep::Finished(ops) => {
                    &&& old(self).transfer is Some
                    &&& async_fault(*old(self), isr) is Some
                    &&& *final(self) == (I2cAsyncContext {
                        transfer: None,
                        error: async_fault(*old(self), isr),
                        ..*old(self)
                    })
                    &&& ops@ == seq![I2cOp::ModifyControl(ControlUpdate::CleanUp)] + finish_ops(
                        *old(self),
                    )
                },
                InterruptStep::Transmit => {
                    &&& old(self).transfer is Some
                    &&& async_fault(*old(self), isr) is None
                    &&& old(self).phase is Write
                    &&& *final(self) == *old(self)
                },
                InterruptStep::Receive => {
                    &&& old(self).transfer is Some
                    &&& async_fault(*old(self), isr) is None
                    &&& old(self).phase is Read
                    &&& *final(self) == *old(self)
                },
            },
    {
        if self.transfer.is_none() {
            return InterruptStep::Ignore;
        }
        if let Some(error) = async_i2c_error(self, isr) {
            let mut ops: Vec<I2cOp> = Vec::new();
            ops.push(I2cOp::ModifyControl(ControlUpdate::CleanUp));
            let mut finish = self.finish_i2c_transfer(Some(error));
            ops.append(&mut finish);
            return InterruptStep::Finished(ops);
        }
        match self.phase {
            I2cAsyncPhase::Write => InterruptStep::Transmit,
            I2cAsyncPhase::Read => InterruptStep::Receive,
        }
    }

    /// The bytes that go into a FIFO that holds `fill` bytes: where they start in
    /// the data and how many.
    pub fn fill_tx_fifo(&mut self, fill: usize) -> (r: (usize, usize))
        requires
            old(self).wf(),
            fill <= FIFO_DEPTH,
        ensures
            final(self).wf(),
            r.0 == old(self).tx_progress,
            r.1 == fill_count(fill as int, old(self).tx_len - old(self).tx_progress),
            *final(self) == (I2cAsyncContext {
                tx_progress: (old(self).tx_progress + r.1) as usize,
                ..*old(self)
            }),
    {
        let first: usize = self.tx_progress;
        let count: usize = bytes_to_write(fill, self.tx_len - self.tx_progress);
        self.tx_progress = self.tx_progress + count;
        (first, count)
    }

    /// The transmit half of an interrupt: bytes to write, then how it ends. The
    /// transfer is over when all bytes were written and it completed.
    pub fn refill(&mut self, isr: InterruptStatus, fill: usize) -> (r: (usize, usize, InterruptEnd))
        requires
            old(self).wf(),
            fill <= FIFO_DEPTH,
        ensures
            final(self).wf(),
            r.0 == old(self).tx_progress,
            r.1 == fill_count(fill as int, old(self).tx_len - old(self).tx_progress),
            match r.2 {
                InterruptEnd::Finished(ops) => {
                    &&& old(self).tx_progress + r.1 == old(self).tx_len
                    &&& isr.complete
                    &&& ops@ == finish_ops(*old(self))
                    &&& *final(self) == (I2cAsyncContext {
                        tx_progress: (old(self).tx_progress + r.1) as usize,
                        transfer: None,
                        error: None,
                        ..*old(self)
                    })
                },
                InterruptEnd::Continue(ops) => {
                    &&& !(old(self).tx_progress + r.1 == old(self).tx_len && isr.complete)
                    &&& ops@ == seq![I2cOp::WriteInterruptStatus(isr)]
                    &&& *final(self) == (I2cAsyncContext {
                        tx_progress: (old(self).tx_progress + r.1) as usize,
                        ..*old(self)
                    })
                },
            },
    {
        let (first, count): (usize, usize) = self.fill_tx_fifo(fill);
        if self.tx_progress == self.tx_len && isr.complete {
            let ops = self.finish_i2c_transfer(None);
            return (first, count, InterruptEnd::Finished(ops));
        }
        let mut ops: Vec<I2cOp> = Vec::new();
        ops.push(I2cOp::WriteInterruptStatus(isr));
        (first, count, InterruptEnd::Continue(ops))
    }

    /// Where the next received byte goes in the buffer, if there is room for it.
    pub fn store(&mut self) -> (r: Option<usize>)
        requires
            old(self).wf(),
        ensures
            final(self).wf(),
            old(self).rx_progress < old(self).rx_len ==> r == Some(old(self).rx_progress)
                && *final(self) == (I2cAsyncContext {
                rx_progress: (old(self).rx_progress + 1) as usize,
                ..*old(self)
            }),
            old(self).rx_progress == old(self).rx_len ==> r is None && *final(self) == *old(self),
    {
        if self.rx_progress < self.rx_len {
            let index: usize = self.rx_progress;
            self.rx_progress = self.rx_progress + 1;
            return Some(index);
        }
        None
    }

    /// How the receive half of an interrupt ends, with `left` bytes still to come.
    pub fn after_drain(&mut self, isr: InterruptStatus, left: usize) -> (r: InterruptEnd)
        requires
            old(self).wf(),
        ensures
            final(self).wf(),
            match r {
                InterruptEnd::Finished(ops) => {
                    &&& old(self).rx_progress == old(self).rx_len
                    &&& isr.complete
                    &&& ops@ == release_ops(*old(self), left) + finish_ops(*old(self))
                    &&& *final(self) == (I2cAsyncContext {
                        transfer: None,
                        error: None,
                        ..*old(self)
                    })
                },
                InterruptEnd::Continue(ops) => {
                    &&& !(old(self).rx_progress == old(self).rx_len && isr.complete)
                    &&& ops@ == release_ops(*old(self), left) + seq![
                        I2cOp::WriteInterruptStatus(isr),
                    ]
                    &&& *final(self) == *old(self)
                },
            },
    {
        let mut ops: Vec<I2cOp> = Vec::new();
        if self.generate_stop && left <= FIFO_DEPTH {
            ops.push(I2cOp::ModifyControl(ControlUpdate::ClearHold));
        }
        assert(ops@ =~= release_ops(*self, left));
        if self.rx_progress == self.rx_len && isr.complete {
            let mut finish = self.finish_i2c_transfer(None);
            ops.append(&mut finish);
            return InterruptEnd::Finished(ops);
        }
        let ghost released = ops@;
        ops.push(I2cOp::WriteInterruptStatus(isr));
        assert(ops@ =~= released + seq![I2cOp::WriteInterruptStatus(isr)]);
        InterruptEnd::Continue(ops)
    }

    /// Starts a write of `len` bytes at `ptr`. Perform the first accesses, fill the FIFO
    /// as [`Self::fill_tx_fifo`] says, then perform the second ones.
    pub fn new_write(&mut self, address: u8, ptr: usize, len: usize, generate_stop: bool) -> (r: (
        Vec<I2cOp>,
        Vec<I2cOp>,
    ))
        ensures
            final(self).wf(),
            r.0@ == async_write_setup_ops(generate_stop),
            r.1@ == async_write_start_ops(address),
            *final(self) == (I2cAsyncContext {
                transfer: Some(I2cAsyncTransfer::Write),
                phase: I2cAsyncPhase::Write,
                address,
                generate_stop,
                tx_ptr: ptr,
                tx_len: len,
                ..idle_context()
            }),
    {
        let mut before: Vec<I2cOp> = Vec::new();
        before.push(disable_interrupts());
        before.push(I2cOp::ModifyControl(ControlUpdate::ConfigureWrite { generate_stop }));
        self.clear();
        self.transfer = Some(I2cAsyncTransfer::Write);
        self.phase = I2cAsyncPhase::Write;
        self.address = address;
        self.generate_stop = generate_stop;
        self.tx_ptr = ptr;
        self.tx_len = len;
        let mut after: Vec<I2cOp> = Vec::new();
        after.push(I2cOp::ClearInterrupts);
        after.push(enable_tx_interrupts());
        after.push(I2cOp::WriteAddress(address));
        (before, after)
    }

    /// Starts a read of `len` bytes at `ptr`. A read of nothing is over at once:
    /// there are no accesses then.
    pub fn new_read(&mut self, address: u8, ptr: usize, len: usize, generate_stop: bool) -> (r:
        Option<Vec<I2cOp>>)
        requires
            len <= u32::MAX,
        ensures
            final(self).wf(),
            r is None <==> len == 0,
            len == 0 ==> *final(self) == idle_context(),
            len != 0 ==> {
                &&& r->0@ == async_read_ops(address, len, generate_stop)
                &&& *final(self) == (I2cAsyncContext {
                    transfer: Some(I2cAsyncTransfer::Read),
                    phase: I2cAsyncPhase::Read,
                    address,
                    generate_stop,
                    rx_ptr: ptr,
                    rx_len: len,
                    ..idle_context()
                })
            },
    {
        if read_completes_immediately(len) {
            self.clear();
            return None;
        }
        self.clear();
        self.transfer = Some(I2cAsyncTransfer::Read);
        self.phase = I2cAsyncPhase::Read;
        self.address = address;
        self.generate_stop = generate_stop;
        self.rx_ptr = ptr;
        self.rx_len = len;
        let mut ops: Vec<I2cOp> = Vec::new();
        ops.push(disable_interrupts());
        let mut configure = configure_read_transfer(len, generate_stop);
        ops.append(&mut configure);
        ops.push(I2cOp::ClearInterrupts);
        ops.push(enable_rx_interrupts());
        ops.push(I2cOp::WriteAddress(address));
        assert(ops@ =~= seq![I2cOp::DisableInterrupts(all_interrupts())] + configure_read_ops(
            len,
            generate_stop,
        ) + seq![
            I2cOp::ClearInterrupts,
            I2cOp::EnableInterrupts(rx_interrupts()),
            I2cOp::WriteAddress(address),
        ]);
        Some(ops)
    }

    /// One poll of the waiting task. `done` is the flag that the interrupt sets, and
    /// that the poll takes.
    pub fn poll(&mut self, done: bool) -> (r: Option<Result<(), I2cError>>)
        ensures
            !done ==> r is None && *final(self) == *old(self),
            done ==> *final(self) == idle_context() && r == Some(
                match old(self).error {
                    Some(e) => Err::<(), I2cError>(e),
                    None => Ok(()),
                },
            ),
    {
        if !done {
            return None;
        }
        let error = self.error;
        self.clear();
        match error {
            Some(e) => Some(Err(e)),
            None => Some(Ok(())),
        }
    }

    /// A transfer that is dropped before it finished leaves the bus released and no
    /// interrupt enabled.
    pub fn cancel(&mut self) -> (ops: Vec<I2cOp>)
        ensures
            *final(self) == idle_context(),
            ops@ == cancel_ops(),
    {
        let mut ops: Vec<I2cOp> = Vec::new();
        ops.push(disable_interrupts());
        ops.push(I2cOp::ModifyControl(ControlUpdate::ClearHold));
        ops.push(I2cOp::ModifyControl(ControlUpdate::CleanUp));
        self.clear();
        ops
    }
}

/// The bus is released early once the rest of a read fits the FIFO.
pub open spec fn release_ops(context: I2cAsyncContext, left: usize) -> Seq<I2cOp> {
    if context.generate_stop && left <= FIFO_DEPTH {
        seq![I2cOp::ModifyControl(ControlUpdate::ClearHold)]
    } else {
        Seq::empty()
    }
}

/// A read of an interrupt-driven transaction is refused before it starts where it
/// is too large.
pub fn check_async_read(len: usize) -> (r: Result<(), I2cError>)
    ensures
        r == if len > MAX_READ_SIZE {
            Err::<(), I2cError>(I2cError::ReadDataLenTooLarge)
        } else {
            Ok(())
        },
{
    if len > MAX_READ_SIZE {
        return Err(I2cError::ReadDataLenTooLarge);
    }
    Ok(())
}

/// Multiplexer setting that routes a pin to an I2C controller.
pub open spec fn i2c_mux() -> MuxConfig {
    MuxConfig { l3: 2, l2: 0, l1: false, l0: false }
}

/// Routes a clock or data pin to its controller, with the internal pull-up.
pub fn configure_pin(pin: AnyPin) -> (ops: Vec<GpioOp>)
    requires
        pin.offset < gpio::MIO_COUNT,
    ensures
        ops@ == gpio::periph_ops(pin.offset as int, i2c_mux(), Some(true), None),
{
    let offset: usize = pin.offset() as usize;
    let ll = LowLevelGpio::new(PinOffset::Mio(offset));
    ll.configure_as_io_periph_pin(MuxConfig::new_with_l3(0b010), Some(true), None)
}

/// Ungates the bus clock of a controller.
pub fn enable_i2c_clock(id: I2cId) -> (ops: Vec<SlcrOp>)
    ensures
        ops@ == slcr::unlocked_one(SlcrOp::EnableAmbaClock(AmbaClock::I2c(id))),
{
    slcr::with_unlocked_one(SlcrOp::EnableAmbaClock(AmbaClock::I2c(id)))
}

/// Holds one controller in reset for some processor cycles.
pub fn reset(id: I2cId) -> (ops: Vec<SlcrOp>)
    ensures
        ops@ == slcr::reset_pulse(
            SlcrOp::WriteI2cReset(
                DualClockReset { periph0_cpu1x_rst: id is I2c0, periph1_cpu1x_rst: id is I2c1 },
            ),
            RESET_CYCLES,
            SlcrOp::WriteI2cReset(
                DualClockReset { periph0_cpu1x_rst: false, periph1_cpu1x_rst: false },
            ),
        ),
{
    let first: bool = matches!(id, I2cId::I2c0);
    slcr::with_reset_pulse(
        SlcrOp::WriteI2cReset(
            DualClockReset { periph0_cpu1x_rst: first, periph1_cpu1x_rst: !first },
        ),
        RESET_CYCLES,
        SlcrOp::WriteI2cReset(
            DualClockReset { periph0_cpu1x_rst: false, periph1_cpu1x_rst: false },
        ),
    )
}

/// The control register of a new driver.
pub open spec fn initial_control(config: Config) -> Control {
    Control {
        div_a: config.clock_config.div_a,
        div_b: config.clock_config.div_b,
        clear_fifo: true,
        slv_mon: false,
        hold_bus: false,
        acken: false,
        addressing: true,
        master: true,
        dir: Direction::Transmitter,
    }
}

/// The accesses that bring a controller up once its pins are routed: clock, reset
/// and control register.
pub fn new_inner(id: I2cId, config: Config) -> (r: (Vec<SlcrOp>, Vec<SlcrOp>, I2cOp))
    requires
        config.clock_config.wf(),
    ensures
        r.0@ == slcr::unlocked_one(SlcrOp::EnableAmbaClock(AmbaClock::I2c(id))),
        r.1@ == slcr::reset_pulse(
            SlcrOp::WriteI2cReset(
                DualClockReset { periph0_cpu1x_rst: id is I2c0, periph1_cpu1x_rst: id is I2c1 },
            ),
            RESET_CYCLES,
            SlcrOp::WriteI2cReset(
                DualClockReset { periph0_cpu1x_rst: false, periph1_cpu1x_rst: false },
            ),
        ),
        r.2 == I2cOp::WriteControl(initial_control(config)),
{
    let clock = enable_i2c_clock(id);
    let pulse = reset(id);
    let control = Control {
        div_a: config.clock_config.div_a(),
        div_b: config.clock_config.div_b(),
        clear_fifo: true,
        slv_mon: false,
        hold_bus: false,
        acken: false,
        addressing: true,
        master: true,
        dir: Direction::Transmitter,
    };
    (clock, pulse, I2cOp::WriteControl(control))
}

/// After the transfer that ends a transaction nothing keeps the bus: every way out
/// of it clears the hold bit.
pub proof fn last_operation_releases_the_bus(cr: Control, context: I2cAsyncContext)
    requires
        context.generate_stop,
    ensures
        !ControlUpdate::ClearHold.applied(cr).hold_bus,
        !ControlUpdate::CleanUp.applied(cr).hold_bus,
        finish_ops(context).contains(I2cOp::ModifyControl(ControlUpdate::ClearHold)),
{
    assert(finish_ops(context)[2] == I2cOp::ModifyControl(ControlUpdate::ClearHold));
}

/// A write followed by another operation keeps the bus, and so does the read after
/// it until it is done: the transaction is not interrupted by another controller.
pub proof fn earlier_operations_keep_the_bus(cr: Control, len: usize)
    ensures
        (ControlUpdate::ConfigureWrite { generate_stop: false }).applied(cr).hold_bus,
        (ControlUpdate::ConfigureRead { len, generate_stop: false }).applied(cr).hold_bus,
        cr.hold_bus ==> (ControlUpdate::ConfigureRead { len, generate_stop: true }).applied(
            cr,
        ).hold_bus,
{
}

} // verus!
