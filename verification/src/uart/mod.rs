//! UART driver.
//!
//! The two halves of a UART share its registers. A reference count, the active
//! configuration and the claimed pins in [`State`] decide when the block is
//! brought up and when it is shut down.
use vstd::prelude::*;

use crate::gpio::{self, GpioOp, LowLevelGpio, PinOffset, MIO_COUNT};
use crate::interrupt::{self, typelevel, HandlerTable};
use crate::runtime::{self, GicOp};
use crate::slcr::{self, AmbaClock, DualRefAndClockReset, SlcrOp};
use crate::Hertz;

pub mod laws;
pub mod sealed;

use sealed::PinMetadata;

verus! {

/// FIFO depth of the UART peripheral.
pub const FIFO_DEPTH: usize = 64;

/// Default RX trigger level.
pub const DEFAULT_RX_TRIGGER_LEVEL: u8 = 1;

/// Cycles for which the reset line is held.
pub const RESET_CYCLES: u32 = 5;

/// UART ID.
#[derive(Debug, Clone, Copy, PartialEq, Eq, Structural)]
pub enum UartId {
    /// UART 0.
    Uart0,
    /// UART 1.
    Uart1,
}

impl UartId {
    pub fn index(self) -> (r: usize)
        ensures
            r == (if self is Uart0 {
                0int
            } else {
                1
            }),
    {
        match self {
            UartId::Uart0 => 0,
            UartId::Uart1 => 1,
        }
    }
}

/// Divisor zero error.
#[derive(Debug, Clone, Copy, PartialEq, Eq, Structural)]
pub struct DivisorZero;

#[derive(Debug, Clone, Copy, PartialEq, Eq, Structural)]
pub enum UartError {
    Parity,
    Framing,
    Overrun,
}

/// Error classes of byte-oriented I/O.
#[derive(Debug, Clone, Copy, PartialEq, Eq, Structural)]
pub enum IoErrorKind {
    InvalidData,
    OutOfMemory,
}

/// Error classes of word-oriented serial interfaces.
#[derive(Debug, Clone, Copy, PartialEq, Eq, Structural)]
pub enum SerialErrorKind {
    Parity,
    FrameFormat,
    Overrun,
}

impl UartError {
    /// The code of the error. Zero stands for none.
    pub open spec fn bits(self) -> u8 {
        match self {
            UartError::Parity => 1,
            UartError::Framing => 2,
            UartError::Overrun => 3,
        }
    }

    pub open spec fn of_bits(bits: u8) -> Option<UartError> {
        if bits == 1 {
            Some(UartError::Parity)
        } else if bits == 2 {
            Some(UartError::Framing)
        } else if bits == 3 {
            Some(UartError::Overrun)
        } else {
            None
        }
    }

    pub fn into_bits(self) -> (r: u8)
        ensures
            r == self.bits(),
    {
        match self {
            UartError::Parity => 1,
            UartError::Framing => 2,
            UartError::Overrun => 3,
        }
    }

    pub fn from_bits(bits: u8) -> (r: Option<Self>)
        ensures
            r == Self::of_bits(bits),
    {
        match bits {
            1 => Some(UartError::Parity),
            2 => Some(UartError::Framing),
            3 => Some(UartError::Overrun),
            _ => None,
        }
    }

    /// How byte-oriented callers see the error.
    pub fn io_kind(&self) -> (r: IoErrorKind)
        ensures
            r == (if *self is Overrun {
                IoErrorKind::OutOfMemory
            } else {
                IoErrorKind::InvalidData
            }),
    {
        match self {
            UartError::Parity | UartError::Framing => IoErrorKind::InvalidData,
            UartError::Overrun => IoErrorKind::OutOfMemory,
        }
    }

    /// How word-oriented callers see the error.
    pub fn serial_kind(&self) -> (r: SerialErrorKind)
        ensures
            r == match *self {
                UartError::Parity => SerialErrorKind::Parity,
                UartError::Framing => SerialErrorKind::FrameFormat,
                UartError::Overrun => SerialErrorKind::Overrun,
            },
    {
        match self {
            UartError::Parity => SerialErrorKind::Parity,
            UartError::Framing => SerialErrorKind::FrameFormat,
            UartError::Overrun => SerialErrorKind::Overrun,
        }
    }
}

/// An error survives being stored as its code, and no error is stored as none.
pub proof fn error_codes_round_trip(error: UartError, bits: u8)
    ensures
        UartError::of_bits(error.bits()) == Some(error),
        error.bits() != 0,
        UartError::of_bits(bits) is Some ==> UartError::of_bits(bits)->0.bits() == bits,
        UartError::of_bits(bits) is None <==> bits == 0 || bits > 3,
{
}

/// Parity configuration.
#[derive(Debug, Clone, Copy, PartialEq, Eq, Structural)]
pub enum Parity {
    /// Even parity.
    Even,
    /// Odd parity.
    Odd,
    /// No parity (default).
    NoParity,
}

impl Default for Parity {
    fn default() -> (r: Self)
        ensures
            r == Parity::NoParity,
    {
        Parity::NoParity
    }
}

/// Stopbit configuration.
#[derive(Debug, Clone, Copy, PartialEq, Eq, Structural)]
pub enum Stopbits {
    /// One stop bit (default).
    One,
    /// 1.5 stopbits.
    OnePointFive,
    /// 2 stopbits.
    Two,
}

impl Default for Stopbits {
    fn default() -> (r: Self)
        ensures
            r == Stopbits::One,
    {
        Stopbits::One
    }
}

/// Character length configuration.
#[derive(Debug, Clone, Copy, PartialEq, Eq, Structural)]
pub enum CharLen {
    /// 6 bits.
    SixBits,
    /// 7 bits.
    SevenBits,
    /// 8 bits (default).
    EightBits,
}

impl Default for CharLen {
    fn default() -> (r: Self)
        ensures
            r == CharLen::EightBits,
    {
        CharLen::EightBits
    }
}

/// Channel mode.
#[derive(Debug, Clone, Copy, PartialEq, Eq, Structural)]
pub enum ChMode {
    /// Both directions on the pins (default).
    Normal,
    AutoEcho,
    LocalLoopback,
    RemoteLoopback,
}

impl Default for ChMode {
    fn default() -> (r: Self)
        ensures
            r == ChMode::Normal,
    {
        ChMode::Normal
    }
}

/// Clock that feeds the baud rate generator.
#[derive(Debug, Clone, Copy, PartialEq, Eq, Structural)]
pub enum ClockSelect {
    /// The reference clock (default).
    UartRefClk,
    /// The reference clock divided by eight.
    UartRefClkDiv8,
}

impl Default for ClockSelect {
    fn default() -> (r: Self)
        ensures
            r == ClockSelect::UartRefClk,
    {
        ClockSelect::UartRefClk
    }
}

/// Clock configuration for baud rate generation.
#[derive(Debug, Clone, Copy, PartialEq, Eq, Structural)]
pub struct ClockConfig {
    pub cd: u16,
    pub bdiv: u8,
}

impl ClockConfig {
    /// The clock divisor must not be zero.
    pub fn new(cd: u16, bdiv: u8) -> (r: Result<Self, DivisorZero>)
        ensures
            r == (if cd == 0 {
                Err(DivisorZero)
            } else {
                Ok(ClockConfig { cd, bdiv })
            }),
    {
        if cd == 0 {
            return Err(DivisorZero);
        }
        Ok(ClockConfig { cd, bdiv })
    }

    pub fn cd(&self) -> (r: u16)
        ensures
            r == self.cd,
    {
        self.cd
    }

    pub fn bdiv(&self) -> (r: u8)
        ensures
            r == self.bdiv,
    {
        self.bdiv
    }
}

impl Default for ClockConfig {
    fn default() -> (r: Self)
        ensures
            r == (ClockConfig { cd: 1, bdiv: 0 }),
    {
        ClockConfig { cd: 1, bdiv: 0 }
    }
}

/// The divisors that were computed for one value of the baud rate divider.
#[derive(Debug, Clone, Copy, PartialEq, Eq, Structural)]
pub struct BaudCandidate {
    /// Clock divisor, rounded to the nearest whole number.
    pub cd: u64,
    pub bdiv: u8,
    /// How far the baud rate is off. A larger error has a larger rank.
    pub error_rank: u64,
}

impl BaudCandidate {
    /// The clock divisor fits its register.
    pub open spec fn is_programmable(self) -> bool {
        0 < self.cd <= u16::MAX
    }

    /// `i` is the first of the programmable candidates with the smallest error.
    pub open spec fn is_choice(candidates: Seq<Self>, i: int) -> bool {
        &&& 0 <= i < candidates.len()
        &&& candidates[i].is_programmable()
        &&& forall|j: int|
            0 <= j < candidates.len() && (#[trigger] candidates[j]).is_programmable() ==> {
                &&& candidates[i].error_rank <= candidates[j].error_rank
                &&& j < i ==> candidates[i].error_rank < candidates[j].error_rank
            }
    }

    /// Every programmable candidate has an error of at least `limit`.
    pub open spec fn none_below(candidates: Seq<Self>, limit: u64) -> bool {
        forall|j: int|
            0 <= j < candidates.len() && (#[trigger] candidates[j]).is_programmable()
                ==> candidates[j].error_rank >= limit
    }
}

/// The clock that the baud rate generator divides for `target_baud`.
pub fn baud_source_clock(uart_clk: Hertz, clk_sel: ClockSelect, target_baud: u32) -> (r: Result<
    Hertz,
    DivisorZero,
>)
    ensures
        r == (if target_baud == 0 {
            Err(DivisorZero)
        } else if clk_sel is UartRefClkDiv8 {
            Ok(Hertz { hz: uart_clk.hz / 8 })
        } else {
            Ok(uart_clk)
        }),
{
    if target_baud == 0 {
        return Err(DivisorZero);
    }
    match clk_sel {
        ClockSelect::UartRefClkDiv8 => Ok(uart_clk.divided_by(8)),
        ClockSelect::UartRefClk => Ok(uart_clk),
    }
}

/// Picks the candidate with the smallest error below `limit`, with its error. Of equal
/// ones the first is taken. Where there is none, the default divisors come with `limit`.
pub fn smallest_error_config(candidates: &[BaudCandidate], limit: u64) -> (r: (ClockConfig, u64))
    ensures
        BaudCandidate::none_below(candidates@, limit) ==> r == (
            ClockConfig { cd: 1, bdiv: 0 },
            limit,
        ),
        !BaudCandidate::none_below(candidates@, limit) ==> exists|i: int|
            {
                &&& #[trigger] BaudCandidate::is_choice(candidates@, i)
                &&& r.0.cd == candidates@[i].cd
                &&& r.0.bdiv == candidates@[i].bdiv
                &&& r.1 == candidates@[i].error_rank
                &&& r.1 < limit
            },
{
    let mut best = ClockConfig::default();
    let mut smallest: u64 = limit;
    let ghost mut chosen: int = -1;
    let mut i: usize = 0;
    while i < candidates.len()
        invariant
            i <= candidates@.len(),
            smallest <= limit,
            -1 <= chosen < i,
            chosen < 0 ==> {
                &&& best == (ClockConfig { cd: 1, bdiv: 0 })
                &&& smallest == limit
            },
            chosen >= 0 ==> {
                &&& candidates@[chosen].is_programmable()
                &&& best.cd == candidates@[chosen].cd
                &&& best.bdiv == candidates@[chosen].bdiv
                &&& smallest == candidates@[chosen].error_rank
                &&& smallest < limit
            },
            forall|j: int|
                0 <= j < i && (#[trigger] candidates@[j]).is_programmable() ==> {
                    &&& smallest <= candidates@[j].error_rank
                    &&& j < chosen ==> smallest < candidates@[j].error_rank
                },
        decreases candidates.len() - i,
    {
        let candidate = candidates[i];
        if candidate.cd != 0 && candidate.cd <= u16::MAX as u64 && candidate.error_rank
            < smallest {
            best = ClockConfig { cd: candidate.cd as u16, bdiv: candidate.bdiv };
            smallest = candidate.error_rank;
            proof {
                chosen = i as int;
            }
        }
        i = i + 1;
    }
    proof {
        if chosen >= 0 {
            assert(BaudCandidate::is_choice(candidates@, chosen));
            assert(!BaudCandidate::none_below(candidates@, limit)) by {
                assert(candidates@[chosen].is_programmable());
            }
        }
    }
    (best, smallest)
}

/// UART configuration.
#[derive(Debug, Clone, Copy, PartialEq, Eq, Structural)]
pub struct Config {
    pub clk_config: ClockConfig,
    pub chmode: ChMode,
    pub parity: Parity,
    pub stopbits: Stopbits,
    pub chrl: CharLen,
    pub clk_sel: ClockSelect,
}

impl Config {
    /// Eight data bits, no parity and one stop bit from the reference clock.
    pub fn new_with_clk_config(clk_config: ClockConfig) -> (r: Self)
        ensures
            r == (Config {
                clk_config,
                chmode: ChMode::Normal,
                parity: Parity::NoParity,
                stopbits: Stopbits::One,
                chrl: CharLen::EightBits,
                clk_sel: ClockSelect::UartRefClk,
            }),
    {
        Self::new(
            clk_config,
            ChMode::default(),
            Parity::default(),
            Stopbits::default(),
            CharLen::default(),
            ClockSelect::default(),
        )
    }

    pub fn new(
        clk_config: ClockConfig,
        chmode: ChMode,
        parity: Parity,
        stopbits: Stopbits,
        chrl: CharLen,
        clk_sel: ClockSelect,
    ) -> (r: Self)
        ensures
            r == (Config { clk_config, chmode, parity, stopbits, chrl, clk_sel }),
    {
        Config { clk_config, chmode, parity, stopbits, chrl, clk_sel }
    }

    pub fn raw_clk_config(&self) -> (r: ClockConfig)
        ensures
            r == self.clk_config,
    {
        self.clk_config
    }
}

/// The interrupt sources of a UART, as the mask, enable, disable and status registers hold them.
#[derive(Debug, Clone, Copy, PartialEq, Eq, Structural)]
pub struct InterruptFlags {
    pub tx_over: bool,
    pub tx_near_full: bool,
    pub tx_trig: bool,
    pub rx_dms: bool,
    pub rx_timeout: bool,
    pub rx_parity: bool,
    pub rx_framing: bool,
    pub rx_over: bool,
    pub tx_full: bool,
    pub tx_empty: bool,
    pub rx_full: bool,
    pub rx_empty: bool,
    pub rx_trg: bool,
}

/// Bits of the control register that the driver sets.
#[derive(Debug, Clone, Copy, PartialEq, Eq, Structural)]
pub struct Control {
    pub tx_en: bool,
    pub tx_dis: bool,
    pub rx_en: bool,
    pub rx_dis: bool,
    pub tx_rst: bool,
    pub rx_rst: bool,
}

/// An update of the control register in place.
#[derive(Debug, Clone, Copy, PartialEq, Eq, Structural)]
pub enum ControlUpdate {
    EnableTx,
    DisableTx,
    ResetTx,
    DisableBoth,
    ResetBoth,
    EnableBoth,
}

impl ControlUpdate {
    pub open spec fn applied(self, c: Control) -> Control {
        match self {
            ControlUpdate::EnableTx => Control { tx_en: true, tx_dis: false, ..c },
            ControlUpdate::DisableTx => Control { tx_en: false, tx_dis: true, ..c },
            ControlUpdate::ResetTx => Control { tx_rst: true, ..c },
            ControlUpdate::DisableBoth => Control { tx_dis: true, rx_dis: true, ..c },
            ControlUpdate::ResetBoth => Control { tx_rst: true, rx_rst: true, ..c },
            ControlUpdate::EnableBoth => Control {
                tx_dis: false,
                rx_dis: false,
                tx_en: true,
                rx_en: true,
                ..c
            },
        }
    }

    /// The control register after the update.
    pub fn apply(self, c: Control) -> (r: Control)
        ensures
            r == self.applied(c),
    {
        match self {
            ControlUpdate::EnableTx => Control { tx_en: true, tx_dis: false, ..c },
            ControlUpdate::DisableTx => Control { tx_en: false, tx_dis: true, ..c },
            ControlUpdate::ResetTx => Control { tx_rst: true, ..c },
            ControlUpdate::DisableBoth => Control { tx_dis: true, rx_dis: true, ..c },
            ControlUpdate::ResetBoth => Control { tx_rst: true, rx_rst: true, ..c },
            ControlUpdate::EnableBoth => Control {
                tx_dis: false,
                rx_dis: false,
                tx_en: true,
                rx_en: true,
                ..c
            },
        }
    }
}

/// Fields of the mode register.
#[derive(Debug, Clone, Copy, PartialEq, Eq, Structural)]
pub struct Mode {
    pub chmode: ChMode,
    pub nbstop: Stopbits,
    pub par: Parity,
    pub chrl: CharLen,
    pub clksel: ClockSelect,
}

/// One access made on behalf of a UART.
#[derive(Debug, Clone, Copy, PartialEq, Eq, Structural)]
pub enum UartOp {
    Gpio(GpioOp),
    Slcr(SlcrOp),
    /// An access to the interrupt controller.
    Gic(GicOp),
    ModifyControl(ControlUpdate),
    WriteIer(InterruptFlags),
    WriteIdr(InterruptFlags),
    WriteIsr(InterruptFlags),
    WriteIdrRaw(u32),
    WriteIsrRaw(u32),
    WriteMode(Mode),
    WriteBaudgen(u16),
    WriteBaudRateDiv(u8),
    WriteRxFifoTrigger(u32),
    WriteFifo(u8),
    /// Wait until the transmitter reset bit reads as zero.
    WaitTxReset,
}

pub open spec fn gpio_ops(ops: Seq<GpioOp>) -> Seq<UartOp> {
    Seq::new(ops.len(), |i: int| UartOp::Gpio(ops[i]))
}

pub open spec fn slcr_ops(ops: Seq<SlcrOp>) -> Seq<UartOp> {
    Seq::new(ops.len(), |i: int| UartOp::Slcr(ops[i]))
}

pub open spec fn gic_ops(ops: Seq<GicOp>) -> Seq<UartOp> {
    Seq::new(ops.len(), |i: int| UartOp::Gic(ops[i]))
}

fn push_gpio(out: &mut Vec<UartOp>, ops: &Vec<GpioOp>)
    ensures
        final(out)@ == old(out)@ + gpio_ops(ops@),
{
    let ghost before = out@;
    let mut i: usize = 0;
    while i < ops.len()
        invariant
            i <= ops.len(),
            out@ == before + gpio_ops(ops@).take(i as int),
        decreases ops.len() - i,
    {
        out.push(UartOp::Gpio(ops[i]));
        assert(gpio_ops(ops@).take(i + 1) =~= gpio_ops(ops@).take(i as int).push(
            UartOp::Gpio(ops@[i as int]),
        ));
        i = i + 1;
    }
    assert(gpio_ops(ops@).take(i as int) =~= gpio_ops(ops@));
}

fn push_slcr(out: &mut Vec<UartOp>, ops: &Vec<SlcrOp>)
    ensures
        final(out)@ == old(out)@ + slcr_ops(ops@),
{
    let ghost before = out@;
    let mut i: usize = 0;
    while i < ops.len()
        invariant
            i <= ops.len(),
            out@ == before + slcr_ops(ops@).take(i as int),
        decreases ops.len() - i,
    {
        out.push(UartOp::Slcr(ops[i]));
        assert(slcr_ops(ops@).take(i + 1) =~= slcr_ops(ops@).take(i as int).push(
            UartOp::Slcr(ops@[i as int]),
        ));
        i = i + 1;
    }
    assert(slcr_ops(ops@).take(i as int) =~= slcr_ops(ops@));
}

fn push_gic(out: &mut Vec<UartOp>, ops: &Vec<GicOp>)
    ensures
        final(out)@ == old(out)@ + gic_ops(ops@),
{
    let ghost before = out@;
    let mut i: usize = 0;
    while i < ops.len()
        invariant
            i <= ops.len(),
            out@ == before + gic_ops(ops@).take(i as int),
        decreases ops.len() - i,
    {
        out.push(UartOp::Gic(ops[i]));
        assert(gic_ops(ops@).take(i + 1) =~= gic_ops(ops@).take(i as int).push(
            UartOp::Gic(ops@[i as int]),
        ));
        i = i + 1;
    }
    assert(gic_ops(ops@).take(i as int) =~= gic_ops(ops@));
}

/// The interrupt sources that drive a transmission.
pub open spec fn tx_flags() -> InterruptFlags {
    InterruptFlags {
        tx_over: true,
        tx_near_full: true,
        tx_trig: false,
        rx_dms: false,
        rx_timeout: false,
        rx_parity: false,
        rx_framing: false,
        rx_over: false,
        tx_full: true,
        tx_empty: true,
        rx_full: false,
        rx_empty: false,
        rx_trg: false,
    }
}

/// The interrupt sources that drive a reception.
pub open spec fn rx_flags() -> InterruptFlags {
    InterruptFlags {
        tx_over: false,
        tx_near_full: false,
        tx_trig: false,
        rx_dms: false,
        rx_timeout: true,
        rx_parity: true,
        rx_framing: true,
        rx_over: true,
        tx_full: false,
        tx_empty: false,
        rx_full: true,
        rx_empty: false,
        rx_trg: true,
    }
}

pub fn tx_interrupt_control() -> (r: InterruptFlags)
    ensures
        r == tx_flags(),
{
    InterruptFlags {
        tx_over: true,
        tx_near_full: true,
        tx_trig: false,
        rx_dms: false,
        rx_timeout: false,
        rx_parity: false,
        rx_framing: false,
        rx_over: false,
        tx_full: true,
        tx_empty: true,
        rx_full: false,
        rx_empty: false,
        rx_trg: false,
    }
}

/// The status bits that a transmission acknowledges.
pub fn tx_interrupt_status() -> (r: InterruptFlags)
    ensures
        r == tx_flags(),
{
    tx_interrupt_control()
}

pub fn rx_interrupt_control() -> (r: InterruptFlags)
    ensures
        r == rx_flags(),
{
    InterruptFlags {
        tx_over: false,
        tx_near_full: false,
        tx_trig: false,
        rx_dms: false,
        rx_timeout: true,
        rx_parity: true,
        rx_framing: true,
        rx_over: true,
        tx_full: false,
        tx_empty: false,
        rx_full: true,
        rx_empty: false,
        rx_trg: true,
    }
}

/// The status bits that a reception acknowledges.
pub fn rx_interrupt_status() -> (r: InterruptFlags)
    ensures
        r == rx_flags(),
{
    rx_interrupt_control()
}

impl InterruptFlags {
    /// The two share no source.
    pub open spec fn disjoint(self, other: InterruptFlags) -> bool {
        &&& !(self.tx_over && other.tx_over)
        &&& !(self.tx_near_full && other.tx_near_full)
        &&& !(self.tx_trig && other.tx_trig)
        &&& !(self.rx_dms && other.rx_dms)
        &&& !(self.rx_timeout && other.rx_timeout)
        &&& !(self.rx_parity && other.rx_parity)
        &&& !(self.rx_framing && other.rx_framing)
        &&& !(self.rx_over && other.rx_over)
        &&& !(self.tx_full && other.tx_full)
        &&& !(self.tx_empty && other.tx_empty)
        &&& !(self.rx_full && other.rx_full)
        &&& !(self.rx_empty && other.rx_empty)
        &&& !(self.rx_trg && other.rx_trg)
    }

    /// The receive error that is flagged. Parity goes before framing, framing before overrun.
    pub open spec fn rx_error(self) -> Option<UartError> {
        if self.rx_parity {
            Some(UartError::Parity)
        } else if self.rx_framing {
            Some(UartError::Framing)
        } else if self.rx_over {
            Some(UartError::Overrun)
        } else {
            None
        }
    }

    /// A source that drives a transmission is set.
    pub open spec fn any_tx(self) -> bool {
        self.tx_over || self.tx_near_full || self.tx_full || self.tx_empty
    }

    /// A source that drives a reception is set.
    pub open spec fn any_rx(self) -> bool {
        self.rx_full || self.rx_trg || self.rx_timeout || self.rx_parity || self.rx_framing
            || self.rx_over
    }
}

/// Acknowledging or masking one direction leaves the other alone.
pub proof fn directions_use_disjoint_sources()
    ensures
        tx_flags().disjoint(rx_flags()),
        tx_flags().any_tx(),
        !tx_flags().any_rx(),
        rx_flags().any_rx(),
        !rx_flags().any_tx(),
{
}

fn flagged_error(isr: InterruptFlags) -> (r: Option<UartError>)
    ensures
        r == isr.rx_error(),
{
    if isr.rx_parity {
        Some(UartError::Parity)
    } else if isr.rx_framing {
        Some(UartError::Framing)
    } else if isr.rx_over {
        Some(UartError::Overrun)
    } else {
        None
    }
}

/// The receive error in the interrupt status, with the access that acknowledges it.
pub fn take_rx_error(isr: InterruptFlags) -> (r: Option<(UartError, UartOp)>)
    ensures
        r == match isr.rx_error() {
            Some(error) => Some((error, UartOp::WriteIsr(rx_flags()))),
            None => None,
        },
{
    match flagged_error(isr) {
        Some(error) => Some((error, UartOp::WriteIsr(rx_interrupt_status()))),
        None => None,
    }
}

/// A buffer that a transfer works on, and how far it got.
///
/// An address of zero stands for no transfer.
#[derive(Debug, Clone, Copy, PartialEq, Eq, Structural)]
pub struct TransferContext {
    pub ptr: usize,
    pub len: usize,
    pub progress: usize,
}

impl TransferContext {
    pub open spec fn idle() -> Self {
        TransferContext { ptr: 0, len: 0, progress: 0 }
    }

    pub open spec fn active(self) -> bool {
        self.ptr != 0
    }

    pub fn new() -> (r: Self)
        ensures
            r == Self::idle(),
    {
        TransferContext { ptr: 0, len: 0, progress: 0 }
    }

    pub fn reset(&mut self)
        ensures
            *final(self) == Self::idle(),
    {
        self.ptr = 0;
        self.len = 0;
        self.progress = 0;
    }

    pub fn is_active(&self) -> (r: bool)
        ensures
            r == self.active(),
    {
        self.ptr != 0
    }
}

/// The pins that the halves of a UART use.
#[derive(Debug, Clone, Copy, PartialEq, Eq, Structural)]
pub struct ClaimedPins {
    pub tx_mio: Option<u8>,
    pub rx_mio: Option<u8>,
    pub route_id: Option<u8>,
}

impl ClaimedPins {
    pub open spec fn none() -> Self {
        ClaimedPins { tx_mio: None, rx_mio: None, route_id: None }
    }

    /// The pins exist.
    pub open spec fn wf(self) -> bool {
        &&& self.tx_mio matches Some(mio) ==> mio < MIO_COUNT
        &&& self.rx_mio matches Some(mio) ==> mio < MIO_COUNT
    }

    /// Nothing that both claim differs.
    pub open spec fn compatible(self, other: Self) -> bool {
        &&& self.tx_mio is Some && other.tx_mio is Some ==> self.tx_mio == other.tx_mio
        &&& self.rx_mio is Some && other.rx_mio is Some ==> self.rx_mio == other.rx_mio
        &&& self.route_id is Some && other.route_id is Some ==> self.route_id == other.route_id
    }

    /// What either claims.
    pub open spec fn merged(self, other: Self) -> Self {
        ClaimedPins {
            tx_mio: if other.tx_mio is Some {
                other.tx_mio
            } else {
                self.tx_mio
            },
            rx_mio: if other.rx_mio is Some {
                other.rx_mio
            } else {
                self.rx_mio
            },
            route_id: if other.route_id is Some {
                other.route_id
            } else {
                self.route_id
            },
        }
    }

    /// Adds the claims of another half. The halves must agree on what both claim.
    pub fn merge(&mut self, other: ClaimedPins)
        requires
            old(self).compatible(other),
        ensures
            *final(self) == old(self).merged(other),
    {
        if other.tx_mio.is_some() {
            self.tx_mio = other.tx_mio;
        }
        if other.rx_mio.is_some() {
            self.rx_mio = other.rx_mio;
        }
        if other.route_id.is_some() {
            self.route_id = other.route_id;
        }
    }
}

/// Merging compatible claims loses nothing, does not depend on the order, and
/// claiming the same again changes nothing.
pub proof fn claims_merge(a: ClaimedPins, b: ClaimedPins)
    requires
        a.compatible(b),
    ensures
        a.merged(b) == b.merged(a),
        a.merged(b).merged(b) == a.merged(b),
        a.merged(b).compatible(a),
        a.merged(b).compatible(b),
        a.tx_mio is Some ==> a.merged(b).tx_mio == a.tx_mio,
        a.rx_mio is Some ==> a.merged(b).rx_mio == a.rx_mio,
        a.route_id is Some ==> a.merged(b).route_id == a.route_id,
{
}

/// Whether two halves may share a UART.
pub fn uart_configs_match(left: Config, right: Config) -> (r: bool)
    ensures
        r == (left == right),
{
    left.clk_config == right.clk_config && left.chmode == right.chmode && left.parity
        == right.parity && left.stopbits == right.stopbits && left.chrl == right.chrl
        && left.clk_sel == right.clk_sel
}

/// Whether an interrupt ends a reception. A timeout alone does not.
pub fn rx_interrupt_should_complete(
    ready: usize,
    has_timeout: bool,
    error: Option<UartError>,
) -> (r: bool)
    ensures
        r == (error is Some || ready != 0),
{
    error.is_some() || ready != 0 || (has_timeout && ready != 0)
}

/// Whether dropping a half shuts the UART down.
pub fn drop_releases_uart(previous_refcount: u8) -> (r: bool)
    ensures
        r == (previous_refcount == 1),
{
    previous_refcount == 1
}

/// The accesses that turn the clocks of a UART on.
pub open spec fn clock_ops(id: UartId) -> Seq<SlcrOp> {
    slcr::unlocked(seq![
        SlcrOp::EnableAmbaClock(AmbaClock::Uart(id)),
        SlcrOp::EnableUartClock(id),
    ])
}

pub fn enable_uart_clock(id: UartId) -> (ops: Vec<SlcrOp>)
    ensures
        ops@ == clock_ops(id),
{
    let inner: Vec<SlcrOp> = vec![
        SlcrOp::EnableAmbaClock(AmbaClock::Uart(id)),
        SlcrOp::EnableUartClock(id),
    ];
    assert(inner@ =~= seq![
        SlcrOp::EnableAmbaClock(AmbaClock::Uart(id)),
        SlcrOp::EnableUartClock(id),
    ]);
    slcr::with_unlocked(&inner)
}

/// The reset lines of one UART asserted.
pub open spec fn reset_lines(id: UartId) -> DualRefAndClockReset {
    DualRefAndClockReset {
        periph0_ref_rst: id is Uart0,
        periph1_ref_rst: id is Uart1,
        periph0_cpu1x_rst: id is Uart0,
        periph1_cpu1x_rst: id is Uart1,
    }
}

pub open spec fn no_reset() -> DualRefAndClockReset {
    DualRefAndClockReset {
        periph0_ref_rst: false,
        periph1_ref_rst: false,
        periph0_cpu1x_rst: false,
        periph1_cpu1x_rst: false,
    }
}

pub open spec fn reset_ops(id: UartId) -> Seq<SlcrOp> {
    slcr::reset_pulse(
        SlcrOp::WriteUartReset(reset_lines(id)),
        RESET_CYCLES,
        SlcrOp::WriteUartReset(no_reset()),
    )
}

/// Resets one UART. The other one's lines stay released.
pub fn reset_uart(id: UartId) -> (ops: Vec<SlcrOp>)
    ensures
        ops@ == reset_ops(id),
{
    let first = match id {
        UartId::Uart0 => true,
        UartId::Uart1 => false,
    };
    slcr::with_reset_pulse(
        SlcrOp::WriteUartReset(
            DualRefAndClockReset {
                periph0_ref_rst: first,
                periph1_ref_rst: !first,
                periph0_cpu1x_rst: first,
                periph1_cpu1x_rst: !first,
            },
        ),
        RESET_CYCLES,
        SlcrOp::WriteUartReset(
            DualRefAndClockReset {
                periph0_ref_rst: false,
                periph1_ref_rst: false,
                periph0_cpu1x_rst: false,
                periph1_cpu1x_rst: false,
            },
        ),
    )
}

/// The register accesses that configure a UART: nothing runs until the last one.
pub open spec fn configure_ops(cfg: Config) -> Seq<UartOp> {
    seq![
        UartOp::ModifyControl(ControlUpdate::DisableBoth),
        UartOp::WriteIdrRaw(0xFFFF_FFFF),
        UartOp::WriteMode(
            Mode {
                chmode: cfg.chmode,
                nbstop: cfg.stopbits,
                par: cfg.parity,
                chrl: cfg.chrl,
                clksel: cfg.clk_sel,
            },
        ),
        UartOp::WriteBaudgen(cfg.clk_config.cd),
        UartOp::WriteBaudRateDiv(cfg.clk_config.bdiv),
        UartOp::ModifyControl(ControlUpdate::ResetBoth),
        UartOp::WriteRxFifoTrigger(DEFAULT_RX_TRIGGER_LEVEL as u32),
        UartOp::ModifyControl(ControlUpdate::EnableBoth),
    ]
}

pub open spec fn init_ops(id: UartId, cfg: Config) -> Seq<UartOp> {
    slcr_ops(clock_ops(id)) + slcr_ops(reset_ops(id)) + configure_ops(cfg)
}

/// Brings a UART up: clocks, reset, then configuration.
pub fn init_uart(id: UartId, cfg: Config) -> (ops: Vec<UartOp>)
    ensures
        ops@ == init_ops(id, cfg),
{
    let mut ops: Vec<UartOp> = Vec::new();
    let clock = enable_uart_clock(id);
    push_slcr(&mut ops, &clock);
    let reset = reset_uart(id);
    push_slcr(&mut ops, &reset);
    let mut configure: Vec<UartOp> = vec![
        UartOp::ModifyControl(ControlUpdate::DisableBoth),
        UartOp::WriteIdrRaw(0xFFFF_FFFF),
        UartOp::WriteMode(Mode {
            chmode: cfg.chmode,
            nbstop: cfg.stopbits,
            par: cfg.parity,
            chrl: cfg.chrl,
            clksel: cfg.clk_sel,
        }),
        UartOp::WriteBaudgen(cfg.raw_clk_config().cd()),
        UartOp::WriteBaudRateDiv(cfg.raw_clk_config().bdiv()),
        UartOp::ModifyControl(ControlUpdate::ResetBoth),
        UartOp::WriteRxFifoTrigger(DEFAULT_RX_TRIGGER_LEVEL as u32),
        UartOp::ModifyControl(ControlUpdate::EnableBoth),
    ];
    assert(configure@ =~= configure_ops(cfg));
    ops.append(&mut configure);
    assert(ops@ =~= init_ops(id, cfg));
    ops
}

/// What the halves of a UART and its interrupt handler share.
#[derive(Debug, Clone, Copy, PartialEq, Eq, Structural)]
pub struct State {
    pub rx_done: bool,
    pub tx_done: bool,
    pub rx_ready_len: usize,
    /// Code of the receive error, see [`UartError::into_bits`].
    pub rx_error: u8,
    pub tx_flush_pending: bool,
    /// Number of halves in use.
    pub tx_rx_refcount: u8,
    pub active_config: Option<Config>,
    pub rx_context: TransferContext,
    pub tx_context: TransferContext,
    pub claimed_pins: ClaimedPins,
}

/// What a transmit interrupt asks for.
#[derive(Debug, Clone, Copy, PartialEq, Eq, Structural)]
pub enum TxService {
    /// Not a transmit interrupt.
    Ignore,
    /// Call [`State::finish_tx`].
    Finish { done: bool },
    /// Fill the FIFO with [`State::fill_step`] until it returns nothing, then
    /// finish with what [`State::fill_done`] says.
    Fill,
}

/// A receive interrupt that is due. The FIFO is emptied with
/// [`State::store_step`], and then [`State::finish_rx`] is called.
#[derive(Debug, Clone, Copy, PartialEq, Eq, Structural)]
pub struct RxService {
    pub has_timeout: bool,
    pub error: Option<UartError>,
}

/// How a reception that finds data at once, or none, goes on.
#[derive(Debug, Clone, Copy, PartialEq, Eq)]
pub enum ReadStart {
    Ready(Result<usize, UartError>),
    /// Wait for the interrupt and poll.
    Pending,
}

impl State {
    pub open spec fn initial() -> Self {
        State {
            rx_done: false,
            tx_done: false,
            rx_ready_len: 0,
            rx_error: 0,
            tx_flush_pending: false,
            tx_rx_refcount: 0,
            active_config: None,
            rx_context: TransferContext::idle(),
            tx_context: TransferContext::idle(),
            claimed_pins: ClaimedPins::none(),
        }
    }

    pub fn new() -> (r: Self)
        ensures
            r == Self::initial(),
    {
        State {
            rx_done: false,
            tx_done: false,
            rx_ready_len: 0,
            rx_error: 0,
            tx_flush_pending: false,
            tx_rx_refcount: 0,
            active_config: None,
            rx_context: TransferContext::new(),
            tx_context: TransferContext::new(),
            claimed_pins: ClaimedPins { tx_mio: None, rx_mio: None, route_id: None },
        }
    }

    /// A UART in use has a configuration, and transfers stay within their buffers.
    pub open spec fn wf(self) -> bool {
        &&& self.tx_rx_refcount > 0 ==> self.active_config is Some
        &&& self.claimed_pins.wf()
        &&& self.tx_context.progress <= self.tx_context.len
        &&& self.rx_context.progress <= self.rx_context.len
    }

    /// Halves that share a UART agree on its configuration and its pins.
    pub open spec fn can_acquire(self, config: Config, claimed: ClaimedPins) -> bool {
        &&& self.tx_rx_refcount > 0 ==> self.active_config == Some(config)
        &&& self.claimed_pins.compatible(claimed)
    }

    pub open spec fn acquired(self, config: Config, parts: u8, claimed: ClaimedPins) -> Self {
        State {
            tx_rx_refcount: if self.tx_rx_refcount + parts > u8::MAX {
                u8::MAX
            } else {
                (self.tx_rx_refcount + parts) as u8
            },
            active_config: Some(config),
            claimed_pins: self.claimed_pins.merged(claimed),
            ..self
        }
    }

    /// Takes `parts` halves into use. Returns whether the UART has to be brought up.
    pub fn acquire(&mut self, config: Config, parts: u8, claimed: ClaimedPins) -> (r: bool)
        requires
            old(self).can_acquire(config, claimed),
        ensures
            r == (old(self).tx_rx_refcount == 0),
            *final(self) == old(self).acquired(config, parts, claimed),
    {
        let refcount: u8 = self.tx_rx_refcount;
        if refcount == 0 {
            self.tx_rx_refcount = parts;
            self.active_config = Some(config);
            self.claimed_pins.merge(claimed);
            true
        } else {
            self.claimed_pins.merge(claimed);
            self.tx_rx_refcount = refcount.saturating_add(parts);
            false
        }
    }

    /// The state after one half was dropped.
    pub open spec fn dropped(self) -> Self {
        if self.tx_rx_refcount == 1 {
            State::initial()
        } else {
            State {
                tx_rx_refcount: if self.tx_rx_refcount == 0 {
                    u8::MAX
                } else {
                    (self.tx_rx_refcount - 1) as u8
                },
                ..self
            }
        }
    }

    /// Drops one half. The last one silences the UART, disconnects its pins and resets it.
    pub fn drop_tx_rx(&mut self, id: UartId) -> (ops: Vec<UartOp>)
        requires
            old(self).claimed_pins.wf(),
        ensures
            ops@ == (if old(self).tx_rx_refcount == 1 {
                shutdown_ops(id, old(self).claimed_pins)
            } else {
                Seq::empty()
            }),
            *final(self) == old(self).dropped(),
    {
        let mut ops: Vec<UartOp> = Vec::new();
        let previous: u8 = self.tx_rx_refcount;
        self.tx_rx_refcount = previous.wrapping_sub(1);
        if !drop_releases_uart(previous) {
            assert(ops@ =~= Seq::<UartOp>::empty());
            return ops;
        }
        ops.push(UartOp::WriteIdrRaw(0xFFFF_FFFF));
        ops.push(UartOp::WriteIsrRaw(0xFFFF_FFFF));
        let claimed = self.claimed_pins;
        *self = State::new();
        if let Some(mio) = claimed.tx_mio {
            let pin = LowLevelGpio::new(PinOffset::Mio(mio as usize));
            let disconnect = pin.configure_as_disconnected();
            push_gpio(&mut ops, &disconnect);
        }
        if let Some(mio) = claimed.rx_mio {
            let pin = LowLevelGpio::new(PinOffset::Mio(mio as usize));
            let disconnect = pin.configure_as_disconnected();
            push_gpio(&mut ops, &disconnect);
        }
        let reset = reset_uart(id);
        push_slcr(&mut ops, &reset);
        assert(ops@ =~= shutdown_ops(id, claimed));
        ops
    }

    /// What a transmit interrupt has to do.
    pub fn on_interrupt_tx(&self, imr: InterruptFlags, isr: InterruptFlags) -> (r: TxService)
        ensures
            r == (if !imr.any_tx() {
                TxService::Ignore
            } else if !self.tx_context.active() {
                TxService::Finish { done: self.tx_flush_pending && isr.tx_empty }
            } else if self.tx_context.progress >= self.tx_context.len && isr.tx_empty {
                TxService::Finish { done: true }
            } else {
                TxService::Fill
            }),
    {
        if !imr.tx_over && !imr.tx_near_full && !imr.tx_full && !imr.tx_empty {
            return TxService::Ignore;
        }
        if !self.tx_context.is_active() {
            return TxService::Finish { done: self.tx_flush_pending && isr.tx_empty };
        }
        let remaining: usize = self.tx_context.len.saturating_sub(self.tx_context.progress);
        if remaining == 0 && isr.tx_empty {
            return TxService::Finish { done: true };
        }
        TxService::Fill
    }

    /// The next byte for the transmit FIFO, if it has room and data is left.
    pub fn fill_step(&mut self, data: &[u8], tx_full: bool) -> (r: Option<u8>)
        requires
            data@.len() == old(self).tx_context.len,
        ensures
            old(self).tx_context.progress < data@.len() && !tx_full ==> {
                &&& r == Some(data@[old(self).tx_context.progress as int])
                &&& *final(self) == (State {
                    tx_context: TransferContext {
                        progress: (old(self).tx_context.progress + 1) as usize,
                        ..old(self).tx_context
                    },
                    ..*old(self)
                })
            },
            old(self).tx_context.progress >= data@.len() || tx_full ==> r is None && *final(self)
                == *old(self),
    {
        if self.tx_context.progress < self.tx_context.len {
            if tx_full {
                return None;
            }
            let byte: u8 = data[self.tx_context.progress];
            self.tx_context.progress = self.tx_context.progress + 1;
            return Some(byte);
        }
        None
    }

    /// Whether a transmission is over once the FIFO was filled.
    pub fn fill_done(&self, tx_empty: bool) -> (r: bool)
        ensures
            r == (self.tx_context.progress >= self.tx_context.len && tx_empty),
    {
        self.tx_context.progress >= self.tx_context.len && tx_empty
    }

    /// Ends a transmit interrupt. A finished transmission masks its sources and
    /// wakes the waiting task.
    pub fn finish_tx(&mut self, done: bool) -> (ops: Vec<UartOp>)
        ensures
            ops@ == service_ops(tx_flags(), done),
            *final(self) == (if done {
                State { tx_done: true, tx_flush_pending: false, ..*old(self) }
            } else {
                *old(self)
            }),
    {
        let mut ops: Vec<UartOp> = vec![UartOp::WriteIsr(tx_interrupt_status())];
        if done {
            ops.push(UartOp::WriteIdr(tx_interrupt_control()));
            self.tx_done = true;
            self.tx_flush_pending = false;
            assert(ops@ =~= seq![UartOp::WriteIsr(tx_flags()), UartOp::WriteIdr(tx_flags())]);
        } else {
            assert(ops@ =~= seq![UartOp::WriteIsr(tx_flags())]);
        }
        ops
    }

    /// What a receive interrupt has to do, if it is one and something is flagged.
    pub fn on_interrupt_rx(imr: InterruptFlags, isr: InterruptFlags) -> (r: Option<RxService>)
        ensures
            r == (if imr.any_rx() && isr.any_rx() {
                Some(RxService { has_timeout: isr.rx_timeout, error: isr.rx_error() })
            } else {
                None
            }),
    {
        if !imr.rx_full && !imr.rx_trg && !imr.rx_timeout && !imr.rx_parity && !imr.rx_framing
            && !imr.rx_over {
            return None;
        }
        let error = flagged_error(isr);
        if !isr.rx_full && !isr.rx_trg && !isr.rx_timeout && error.is_none() {
            return None;
        }
        Some(RxService { has_timeout: isr.rx_timeout, error })
    }

    /// Where the next byte of the receive FIFO goes, if there is one and there is room for it.
    pub fn store_step(&mut self, rx_empty: bool) -> (r: Option<usize>)
        ensures
            ({
                let c = old(self).rx_context;
                if c.active() && c.progress < c.len && !rx_empty {
                    &&& r == Some(c.progress)
                    &&& *final(self) == (State {
                        rx_context: TransferContext { progress: (c.progress + 1) as usize, ..c },
                        ..*old(self)
                    })
                } else {
                    r is None && *final(self) == *old(self)
                }
            }),
    {
        if !self.rx_context.is_active() {
            return None;
        }
        if self.rx_context.progress < self.rx_context.len {
            if rx_empty {
                return None;
            }
            let index: usize = self.rx_context.progress;
            self.rx_context.progress = index + 1;
            return Some(index);
        }
        None
    }

    /// Number of bytes that a reception has stored.
    pub open spec fn stored(self) -> usize {
        if self.rx_context.active() {
            self.rx_context.progress
        } else {
            0
        }
    }

    pub fn service_rx_fifo(&self) -> (r: usize)
        ensures
            r == self.stored(),
    {
        if !self.rx_context.is_active() {
            return 0;
        }
        self.rx_context.progress
    }

    /// Ends a receive interrupt. Data or an error ends the reception, which masks
    /// its sources and wakes the waiting task.
    pub fn finish_rx(&mut self, service: RxService) -> (r: (Vec<UartOp>, bool))
        ensures
            r.1 == (service.error is Some || old(self).stored() != 0),
            r.0@ == service_ops(rx_flags(), r.1),
            *final(self) == (if r.1 {
                State {
                    rx_error: match service.error {
                        Some(error) => error.bits(),
                        None => old(self).rx_error,
                    },
                    rx_ready_len: old(self).stored(),
                    rx_done: true,
                    ..*old(self)
                }
            } else {
                *old(self)
            }),
    {
        let ready: usize = self.service_rx_fifo();
        let mut ops: Vec<UartOp> = vec![UartOp::WriteIsr(rx_interrupt_status())];
        if rx_interrupt_should_complete(ready, service.has_timeout, service.error) {
            ops.push(UartOp::WriteIdr(rx_interrupt_control()));
            if let Some(error) = service.error {
                self.rx_error = error.into_bits();
            }
            self.rx_ready_len = ready;
            self.rx_done = true;
            assert(ops@ =~= seq![UartOp::WriteIsr(rx_flags()), UartOp::WriteIdr(rx_flags())]);
            (ops, true)
        } else {
            assert(ops@ =~= seq![UartOp::WriteIsr(rx_flags())]);
            (ops, false)
        }
    }

    /// Ends a transmission, finished or cancelled.
    pub fn reset_tx_transfer(&mut self) -> (ops: Vec<UartOp>)
        ensures
            ops@ == end_ops(tx_flags()),
            *final(self) == (State {
                tx_done: false,
                tx_flush_pending: false,
                tx_context: TransferContext::idle(),
                ..*old(self)
            }),
    {
        self.tx_context.reset();
        self.reset_tx_flush()
    }

    /// Ends a flush, finished or cancelled.
    pub fn reset_tx_flush(&mut self) -> (ops: Vec<UartOp>)
        ensures
            ops@ == end_ops(tx_flags()),
            *final(self) == (State { tx_done: false, tx_flush_pending: false, ..*old(self) }),
    {
        self.tx_done = false;
        self.tx_flush_pending = false;
        let ops: Vec<UartOp> = vec![
            UartOp::WriteIdr(tx_interrupt_control()),
            UartOp::WriteIsr(tx_interrupt_status()),
        ];
        assert(ops@ =~= end_ops(tx_flags()));
        ops
    }

    /// The state after a reception was ended, finished or cancelled.
    pub open spec fn rx_ended(self) -> Self {
        State {
            rx_done: false,
            rx_ready_len: 0,
            rx_error: 0,
            rx_context: TransferContext::idle(),
            ..self
        }
    }

    /// Ends a reception, finished or cancelled.
    pub fn reset_rx_transfer(&mut self) -> (ops: Vec<UartOp>)
        ensures
            ops@ == end_ops(rx_flags()),
            *final(self) == old(self).rx_ended(),
    {
        self.rx_done = false;
        self.rx_ready_len = 0;
        self.rx_error = 0;
        self.rx_context.reset();
        let ops: Vec<UartOp> = vec![
            UartOp::WriteIdr(rx_interrupt_control()),
            UartOp::WriteIsr(rx_interrupt_status()),
        ];
        assert(ops@ =~= end_ops(rx_flags()));
        ops
    }

    /// Starts sending `data`, the buffer at address `ptr`. The transmitter is
    /// reset, its FIFO filled, and its interrupts do the rest.
    ///
    /// Nothing is done for an empty buffer; nothing has to be waited for then.
    pub fn start_write(&mut self, tx: &UartTx, ptr: usize, data: &[u8]) -> (ops: Vec<UartOp>)
        requires
            ptr != 0,
        ensures
            data@.len() == 0 ==> ops@ == Seq::<UartOp>::empty() && *final(self) == *old(self),
            data@.len() > 0 ==> ops@ == write_ops(data@) && *final(self) == (State {
                tx_done: false,
                tx_context: TransferContext {
                    ptr,
                    len: data@.len() as usize,
                    progress: initial_fill(data@.len()) as usize,
                },
                ..*old(self)
            }),
    {
        let mut ops: Vec<UartOp> = Vec::new();
        if data.len() == 0 {
            assert(ops@ =~= Seq::<UartOp>::empty());
            return ops;
        }
        self.tx_done = false;
        ops.push(tx.disable_interrupts());
        ops.push(tx.disable());
        let init_fill_count: usize = if data.len() < FIFO_DEPTH {
            data.len()
        } else {
            FIFO_DEPTH
        };
        self.tx_context = TransferContext { ptr, len: data.len(), progress: init_fill_count };
        let mut enable = tx.enable(true);
        ops.append(&mut enable);
        let ghost head = ops@;
        assert(head =~= write_head_ops());
        let mut i: usize = 0;
        while i < init_fill_count
            invariant
                i <= init_fill_count <= data@.len(),
                ops@ == head + fifo_ops(data@.take(i as int)),
            decreases init_fill_count - i,
        {
            ops.push(tx.write_fifo_unchecked(data[i]));
            assert(fifo_ops(data@.take(i + 1)) =~= fifo_ops(data@.take(i as int)).push(
                UartOp::WriteFifo(data@[i as int]),
            ));
            i = i + 1;
        }
        ops.push(tx.enable_interrupts());
        assert(ops@ =~= write_ops(data@));
        ops
    }

    /// Whether a transmission is over, with the accesses that end it.
    pub fn poll_write(&mut self) -> (r: Option<Vec<UartOp>>)
        ensures
            old(self).tx_done ==> {
                &&& r is Some
                &&& r->0@ == end_ops(tx_flags())
                &&& *final(self) == (State {
                    tx_done: false,
                    tx_flush_pending: false,
                    tx_context: TransferContext::idle(),
                    ..*old(self)
                })
            },
            !old(self).tx_done ==> r is None && *final(self) == *old(self),
    {
        if self.tx_done {
            Some(self.reset_tx_transfer())
        } else {
            None
        }
    }

    /// Starts waiting for the transmitter to run empty, unless it is.
    pub fn start_flush(&mut self, tx: &UartTx, tx_empty: bool) -> (r: Option<Vec<UartOp>>)
        ensures
            tx_empty ==> r is None && *final(self) == *old(self),
            !tx_empty ==> {
                &&& r is Some
                &&& r->0@ == flush_ops()
                &&& *final(self) == (State {
                    tx_done: false,
                    tx_flush_pending: true,
                    ..*old(self)
                })
            },
    {
        if tx_empty {
            return None;
        }
        self.tx_done = false;
        self.tx_flush_pending = true;
        let ops: Vec<UartOp> = vec![tx.clear_interrupts(), tx.enable_interrupts()];
        assert(ops@ =~= flush_ops());
        Some(ops)
    }

    /// Whether a flush is over, with the accesses that end it.
    pub fn poll_flush(&mut self) -> (r: Option<Vec<UartOp>>)
        ensures
            old(self).tx_done ==> {
                &&& r is Some
                &&& r->0@ == end_ops(tx_flags())
                &&& *final(self) == (State {
                    tx_done: false,
                    tx_flush_pending: false,
                    ..*old(self)
                })
            },
            !old(self).tx_done ==> r is None && *final(self) == *old(self),
    {
        if self.tx_done {
            Some(self.reset_tx_flush())
        } else {
            None
        }
    }

    /// Starts receiving into a buffer of `len` bytes at address `ptr`.
    ///
    /// An empty buffer is complete at once, and nothing is done for it. After
    /// the accesses a flagged error ends the reception
    /// ([`State::reject_read`]); then the FIFO is emptied with
    /// [`State::store_step`] and [`State::continue_read`] called.
    pub fn start_read(&mut self, rx: &UartRx, ptr: usize, len: usize) -> (ops: Vec<UartOp>)
        requires
            ptr != 0,
        ensures
            len == 0 ==> ops@ == Seq::<UartOp>::empty() && *final(self) == *old(self),
            len > 0 ==> {
                &&& ops@ == end_ops(rx_flags())
                &&& *final(self) == (State {
                    rx_done: false,
                    rx_ready_len: 0,
                    rx_error: 0,
                    rx_context: TransferContext { ptr, len, progress: 0 },
                    ..*old(self)
                })
            },
    {
        if len == 0 {
            let ops: Vec<UartOp> = Vec::new();
            assert(ops@ =~= Seq::<UartOp>::empty());
            return ops;
        }
        self.rx_done = false;
        self.rx_ready_len = 0;
        self.rx_error = 0;
        self.rx_context = TransferContext { ptr, len, progress: 0 };
        let ops: Vec<UartOp> = vec![rx.disable_interrupts(), rx.clear_interrupts()];
        assert(ops@ =~= end_ops(rx_flags()));
        ops
    }

    /// Ends a reception whose interrupt status holds an error.
    pub fn reject_read(&mut self, isr: InterruptFlags) -> (r: Option<(UartError, Vec<UartOp>)>)
        ensures
            match isr.rx_error() {
                Some(error) => {
                    &&& r is Some
                    &&& r.unwrap().0 == error
                    &&& r.unwrap().1@ == rejected_ops()
                    &&& *final(self) == old(self).rx_ended()
                },
                None => r is None && *final(self) == *old(self),
            },
    {
        match take_rx_error(isr) {
            Some((error, acknowledge)) => {
                let mut ops: Vec<UartOp> = vec![acknowledge];
                let mut reset = self.reset_rx_transfer();
                ops.append(&mut reset);
                assert(ops@ =~= rejected_ops());
                Some((error, ops))
            },
            None => None,
        }
    }

    /// Goes on with a reception after the FIFO was emptied: data that was there
    /// ends it, unless an error is flagged by now; without data the receive
    /// interrupts are enabled.
    pub fn continue_read(&mut self, rx: &UartRx, isr: InterruptFlags) -> (r: (
        ReadStart,
        Vec<UartOp>,
    ))
        ensures
            ({
                let s = *old(self);
                if s.stored() == 0 {
                    &&& r.0 is Pending
                    &&& r.1@ == await_rx_ops()
                    &&& *final(self) == s
                } else {
                    &&& *final(self) == s.rx_ended()
                    &&& match isr.rx_error() {
                        Some(error) => r.0 == ReadStart::Ready(Err(error)) && r.1@
                            == rejected_ops(),
                        None => r.0 == ReadStart::Ready(Ok(s.stored())) && r.1@ == end_ops(rx_flags()),
                    }
                }
            }),
    {
        let ready: usize = self.service_rx_fifo();
        if ready == 0 {
            let ops: Vec<UartOp> = vec![rx.enable_interrupts()];
            assert(ops@ =~= await_rx_ops());
            return (ReadStart::Pending, ops);
        }
        match self.reject_read(isr) {
            Some((error, ops)) => (ReadStart::Ready(Err(error)), ops),
            None => {
                let ops = self.reset_rx_transfer();
                (ReadStart::Ready(Ok(ready)), ops)
            },
        }
    }

    /// Whether an interrupt has ended the reception, with the accesses that end it.
    ///
    /// The transfer is ended before its outcome is read back, so a reception
    /// that an interrupt ended reports neither its length nor its error.
    pub fn poll_read(&mut self) -> (r: Option<(Result<usize, UartError>, Vec<UartOp>)>)
        ensures
            old(self).rx_done ==> {
                &&& r is Some
                &&& r.unwrap().0 == Ok::<usize, UartError>(0)
                &&& r.unwrap().1@ == end_ops(rx_flags())
                &&& *final(self) == old(self).rx_ended()
            },
            !old(self).rx_done ==> r is None && *final(self) == *old(self),
    {
        if !self.rx_done {
            return None;
        }
        let ops = self.reset_rx_transfer();
        match UartError::from_bits(self.rx_error) {
            Some(error) => Some((Err(error), ops)),
            None => Some((Ok(self.rx_ready_len), ops)),
        }
    }
}

/// Acknowledging a receive error and ending the reception.
pub open spec fn rejected_ops() -> Seq<UartOp> {
    seq![
        UartOp::WriteIsr(rx_flags()),
        UartOp::WriteIdr(rx_flags()),
        UartOp::WriteIsr(rx_flags()),
    ]
}

/// Bytes that go into the FIFO before the interrupts take over.
pub open spec fn initial_fill(len: nat) -> nat {
    if len < FIFO_DEPTH {
        len
    } else {
        FIFO_DEPTH as nat
    }
}

/// The accesses that mask the interrupts of a direction for good.
pub open spec fn end_ops(flags: InterruptFlags) -> Seq<UartOp> {
    seq![UartOp::WriteIdr(flags), UartOp::WriteIsr(flags)]
}

/// The accesses that let the transmitter report that it runs empty.
pub open spec fn flush_ops() -> Seq<UartOp> {
    seq![UartOp::WriteIsr(tx_flags()), UartOp::WriteIer(tx_flags())]
}

/// The accesses that let the receiver report data.
pub open spec fn await_rx_ops() -> Seq<UartOp> {
    seq![UartOp::WriteIer(rx_flags())]
}

/// The accesses that end an interrupt of a direction, which is masked once it is done.
pub open spec fn service_ops(flags: InterruptFlags, done: bool) -> Seq<UartOp> {
    if done {
        seq![UartOp::WriteIsr(flags), UartOp::WriteIdr(flags)]
    } else {
        seq![UartOp::WriteIsr(flags)]
    }
}

/// The accesses that turn the transmitter on, after a reset where one is asked for.
pub open spec fn enable_tx_ops(with_reset: bool) -> Seq<UartOp> {
    if with_reset {
        seq![
            UartOp::ModifyControl(ControlUpdate::ResetTx),
            UartOp::WaitTxReset,
            UartOp::ModifyControl(ControlUpdate::EnableTx),
        ]
    } else {
        seq![UartOp::ModifyControl(ControlUpdate::EnableTx)]
    }
}

/// The accesses that put `data` into the transmit FIFO.
pub open spec fn fifo_ops(data: Seq<u8>) -> Seq<UartOp> {
    Seq::new(data.len(), |i: int| UartOp::WriteFifo(data[i]))
}

/// The accesses that restart the transmitter with its interrupts off.
pub open spec fn write_head_ops() -> Seq<UartOp> {
    seq![
        UartOp::WriteIdr(tx_flags()),
        UartOp::ModifyControl(ControlUpdate::DisableTx),
        UartOp::ModifyControl(ControlUpdate::ResetTx),
        UartOp::WaitTxReset,
        UartOp::ModifyControl(ControlUpdate::EnableTx),
    ]
}

/// The accesses that start sending `data`.
pub open spec fn write_ops(data: Seq<u8>) -> Seq<UartOp> {
    write_head_ops() + fifo_ops(data.take(initial_fill(data.len()) as int)) + seq![
        UartOp::WriteIer(tx_flags()),
    ]
}

pub open spec fn disconnect_ops(mio: Option<u8>) -> Seq<UartOp> {
    match mio {
        Some(mio) => gpio_ops(gpio::disconnected_ops(mio as int)),
        None => Seq::empty(),
    }
}

/// The accesses that shut a UART down.
pub open spec fn shutdown_ops(id: UartId, claimed: ClaimedPins) -> Seq<UartOp> {
    seq![UartOp::WriteIdrRaw(0xFFFF_FFFF), UartOp::WriteIsrRaw(0xFFFF_FFFF)] + disconnect_ops(
        claimed.tx_mio,
    ) + disconnect_ops(claimed.rx_mio) + slcr_ops(reset_ops(id))
}

/// A UART that was not in use is back in its first state after as many halves
/// were dropped as were taken into use.
pub proof fn dropping_all_halves_releases_the_uart(
    state: State,
    config: Config,
    claimed: ClaimedPins,
)
    requires
        state.tx_rx_refcount == 0,
    ensures
        state.acquired(config, 1, claimed).dropped() == State::initial(),
        state.acquired(config, 2, claimed).dropped().tx_rx_refcount == 1,
        state.acquired(config, 2, claimed).dropped().dropped() == State::initial(),
{
}

/// Taking halves into use, dropping them and ending transfers keep the shared state valid.
pub proof fn shared_state_stays_valid(
    state: State,
    config: Config,
    parts: u8,
    claimed: ClaimedPins,
)
    requires
        state.wf(),
        claimed.wf(),
    ensures
        State::initial().wf(),
        state.acquired(config, parts, claimed).wf(),
        state.tx_rx_refcount > 0 ==> state.dropped().wf(),
        state.rx_ended().wf(),
{
}

/// A second half of the same configuration can join, and the first one's pins stay claimed.
pub proof fn second_half_joins(state: State, config: Config, first: ClaimedPins, second: ClaimedPins)
    requires
        state == State::initial(),
        first.compatible(second),
    ensures
        state.can_acquire(config, first),
        state.acquired(config, 1, first).can_acquire(config, second),
        state.acquired(config, 1, first).acquired(config, 1, second).claimed_pins
            == first.merged(second),
        state.acquired(config, 1, first).acquired(config, 1, second)
            == state.acquired(config, 2, first.merged(second)),
{
}

/// The bytes that were sent so far followed by the one that a step sends next
/// are what will have been sent: a transmission sends its buffer in order.
pub proof fn transmission_follows_the_buffer(data: Seq<u8>, progress: int)
    requires
        0 <= progress < data.len(),
    ensures
        data.take(progress).push(data[progress]) == data.take(progress + 1),
        fifo_ops(data.take(progress)).push(UartOp::WriteFifo(data[progress])) == fifo_ops(
            data.take(progress + 1),
        ),
{
    assert(data.take(progress).push(data[progress]) =~= data.take(progress + 1));
    assert(fifo_ops(data.take(progress)).push(UartOp::WriteFifo(data[progress])) =~= fifo_ops(
        data.take(progress + 1),
    ));
}

/// The word cannot be transferred yet.
#[derive(Debug, Clone, Copy, PartialEq, Eq, Structural)]
pub struct WouldBlock;

/// Why no word was read.
#[derive(Debug, Clone, Copy, PartialEq, Eq, Structural)]
pub enum ReadFifoError {
    WouldBlock,
    Other(UartError),
}

/// UART TX half.
#[derive(Debug, Clone, Copy, PartialEq, Eq, Structural)]
pub struct UartTx {
    pub id: UartId,
}

/// UART RX half.
#[derive(Debug, Clone, Copy, PartialEq, Eq, Structural)]
pub struct UartRx {
    pub id: UartId,
}

/// Type-erased TX half used by the blocking logger.
#[derive(Debug, Clone, Copy, PartialEq, Eq, Structural)]
pub struct AnyTx {
    pub id: UartId,
}

/// Native UART driver.
#[derive(Debug, Clone, Copy, PartialEq, Eq, Structural)]
pub struct Uart {
    pub tx: UartTx,
    pub rx: UartRx,
}

/// The accesses that hand a pin to a UART.
pub open spec fn pin_ops(metadata: PinMetadata) -> Seq<UartOp> {
    gpio_ops(gpio::periph_ops(metadata.mio as int, metadata.mux_config, None, None))
}

/// Hands a pin to a UART.
pub fn configure_mio_pin_for_uart(metadata: PinMetadata, out: &mut Vec<UartOp>)
    requires
        metadata.mio < MIO_COUNT,
    ensures
        final(out)@ == old(out)@ + pin_ops(metadata),
{
    let pin = LowLevelGpio::new(PinOffset::Mio(metadata.mio as usize));
    let ops = pin.configure_as_io_periph_pin(metadata.mux_config, None, None);
    push_gpio(out, &ops);
}

/// The accesses that take halves of a UART into use once their pins are configured.
pub open spec fn acquire_ops(state: State, id: UartId, config: Config) -> Seq<UartOp> {
    if state.tx_rx_refcount == 0 {
        init_ops(id, config)
    } else {
        Seq::empty()
    }
}

/// Takes `parts` halves of a UART into use. Only the first ones bring it up.
pub fn acquire_uart(
    state: &mut State,
    id: UartId,
    config: Config,
    parts: u8,
    claimed: ClaimedPins,
    out: &mut Vec<UartOp>,
)
    requires
        old(state).can_acquire(config, claimed),
    ensures
        *final(state) == old(state).acquired(config, parts, claimed),
        final(out)@ == old(out)@ + acquire_ops(*old(state), id, config),
{
    let ghost before = out@;
    if state.acquire(config, parts, claimed) {
        let mut init = init_uart(id, config);
        out.append(&mut init);
    }
    assert(out@ =~= before + acquire_ops(*old(state), id, config));
}

/// The accesses that clear and mask the interrupts of a direction.
pub open spec fn quiet_ops(flags: InterruptFlags) -> Seq<UartOp> {
    seq![UartOp::WriteIsr(flags), UartOp::WriteIdr(flags)]
}

/// Activating the binding of an interrupt handler.
pub open spec fn bind_ops<I: typelevel::Interrupt>() -> Seq<UartOp> {
    gic_ops(runtime::unpend_ops(I::source()) + runtime::enable_ops(I::source()))
}

/// Activates the binding of a UART interrupt handler.
pub fn bind_interrupt<
    I: typelevel::Interrupt,
    H: typelevel::Handler<I>,
    B: typelevel::Binding<I, H>,
>(binding: B, table: &mut HandlerTable, out: &mut Vec<UartOp>)
    requires
        HandlerTable::has_slot(I::source()),
        !old(table).conflicts(I::source(), binding.address()),
    ensures
        final(out)@ == old(out)@ + bind_ops::<I>(),
        final(table)@ == match I::source().number() {
            Some(id) => old(table)@.update(id as int, binding.address()),
            None => old(table)@,
        },
{
    let ops = interrupt::bind::<I, H, B>(binding, table);
    push_gic(out, &ops);
}

impl Uart {
    /// The pins that both halves claim.
    pub open spec fn claims(tx: PinMetadata, rx: PinMetadata) -> ClaimedPins {
        ClaimedPins {
            tx_mio: Some(tx.mio),
            rx_mio: Some(rx.mio),
            route_id: Some(tx.route_id),
        }
    }

    /// A UART whose two halves use the pins of one route.
    pub fn new_blocking(
        state: &mut State,
        id: UartId,
        tx: PinMetadata,
        rx: PinMetadata,
        config: Config,
    ) -> (r: (Self, Vec<UartOp>))
        requires
            tx.mio < MIO_COUNT,
            rx.mio < MIO_COUNT,
            tx.route_id == rx.route_id,
            old(state).can_acquire(config, Self::claims(tx, rx)),
        ensures
            r.0 == (Uart { tx: UartTx { id }, rx: UartRx { id } }),
            r.1@ == pin_ops(tx) + pin_ops(rx) + acquire_ops(*old(state), id, config),
            *final(state) == old(state).acquired(config, 2, Self::claims(tx, rx)),
    {
        let mut ops: Vec<UartOp> = Vec::new();
        configure_mio_pin_for_uart(tx, &mut ops);
        configure_mio_pin_for_uart(rx, &mut ops);
        acquire_uart(
            state,
            id,
            config,
            2,
            ClaimedPins {
                tx_mio: Some(tx.mio),
                rx_mio: Some(rx.mio),
                route_id: Some(tx.route_id),
            },
            &mut ops,
        );
        assert(ops@ =~= pin_ops(tx) + pin_ops(rx) + acquire_ops(*old(state), id, config));
        (Uart { tx: UartTx { id }, rx: UartRx { id } }, ops)
    }

    /// The accesses that follow the activation of the interrupt handler.
    pub fn after_bind(&self) -> (ops: Vec<UartOp>)
        ensures
            ops@ == quiet_ops(tx_flags()),
    {
        let ops: Vec<UartOp> = vec![self.tx.clear_interrupts(), self.tx.disable_interrupts()];
        assert(ops@ =~= quiet_ops(tx_flags()));
        ops
    }

    /// An interrupt-driven UART: brought up, its handler bound, its transmit
    /// interrupts quiet.
    pub fn new<I: typelevel::Interrupt, H: typelevel::Handler<I>, B: typelevel::Binding<I, H>>(
        state: &mut State,
        id: UartId,
        tx: PinMetadata,
        rx: PinMetadata,
        irq: B,
        table: &mut HandlerTable,
        config: Config,
    ) -> (r: (Self, Vec<UartOp>))
        requires
            tx.mio < MIO_COUNT,
            rx.mio < MIO_COUNT,
            tx.route_id == rx.route_id,
            old(state).can_acquire(config, Self::claims(tx, rx)),
            HandlerTable::has_slot(I::source()),
            !old(table).conflicts(I::source(), irq.address()),
        ensures
            r.0 == (Uart { tx: UartTx { id }, rx: UartRx { id } }),
            r.1@ == pin_ops(tx) + pin_ops(rx) + acquire_ops(*old(state), id, config) + bind_ops::<
                I,
            >() + quiet_ops(tx_flags()),
            *final(state) == old(state).acquired(config, 2, Self::claims(tx, rx)),
            final(table)@ == match I::source().number() {
                Some(id) => old(table)@.update(id as int, irq.address()),
                None => old(table)@,
            },
    {
        let (uart, mut ops) = Uart::new_blocking(state, id, tx, rx, config);
        bind_interrupt::<I, H, B>(irq, table, &mut ops);
        let mut quiet = uart.after_bind();
        ops.append(&mut quiet);
        assert(ops@ =~= pin_ops(tx) + pin_ops(rx) + acquire_ops(*old(state), id, config)
            + bind_ops::<I>() + quiet_ops(tx_flags()));
        (uart, ops)
    }

    pub fn split(self) -> (r: (UartTx, UartRx))
        ensures
            r.0 == self.tx,
            r.1 == self.rx,
    {
        (self.tx, self.rx)
    }

    /// Both halves, for as long as the UART is borrowed.
    pub fn split_by_ref(&mut self) -> (r: (&mut UartTx, &mut UartRx))
        ensures
            *r.0 == old(self).tx,
            *r.1 == old(self).rx,
            *final(self) == (Uart { tx: *final(r.0), rx: *final(r.1) }),
    {
        (&mut self.tx, &mut self.rx)
    }
}

impl UartTx {
    pub open spec fn claims(tx: PinMetadata) -> ClaimedPins {
        ClaimedPins { tx_mio: Some(tx.mio), rx_mio: None, route_id: Some(tx.route_id) }
    }

    pub fn new_blocking(state: &mut State, id: UartId, tx: PinMetadata, config: Config) -> (r: (
        Self,
        Vec<UartOp>,
    ))
        requires
            tx.mio < MIO_COUNT,
            old(state).can_acquire(config, Self::claims(tx)),
        ensures
            r.0.id == id,
            r.1@ == pin_ops(tx) + acquire_ops(*old(state), id, config),
            *final(state) == old(state).acquired(config, 1, Self::claims(tx)),
    {
        let mut ops: Vec<UartOp> = Vec::new();
        configure_mio_pin_for_uart(tx, &mut ops);
        acquire_uart(
            state,
            id,
            config,
            1,
            ClaimedPins { tx_mio: Some(tx.mio), rx_mio: None, route_id: Some(tx.route_id) },
            &mut ops,
        );
        assert(ops@ =~= pin_ops(tx) + acquire_ops(*old(state), id, config));
        (UartTx { id }, ops)
    }

    /// An interrupt-driven half: its interrupts are quiet before its handler is bound.
    pub fn new<I: typelevel::Interrupt, H: typelevel::Handler<I>, B: typelevel::Binding<I, H>>(
        state: &mut State,
        id: UartId,
        tx: PinMetadata,
        irq: B,
        table: &mut HandlerTable,
        config: Config,
    ) -> (r: (Self, Vec<UartOp>))
        requires
            tx.mio < MIO_COUNT,
            old(state).can_acquire(config, Self::claims(tx)),
            HandlerTable::has_slot(I::source()),
            !old(table).conflicts(I::source(), irq.address()),
        ensures
            r.0.id == id,
            r.1@ == pin_ops(tx) + acquire_ops(*old(state), id, config) + quiet_ops(tx_flags())
                + bind_ops::<I>(),
            *final(state) == old(state).acquired(config, 1, Self::claims(tx)),
            final(table)@ == match I::source().number() {
                Some(id) => old(table)@.update(id as int, irq.address()),
                None => old(table)@,
            },
    {
        let (half, mut ops) = UartTx::new_blocking(state, id, tx, config);
        ops.push(half.clear_interrupts());
        ops.push(half.disable_interrupts());
        assert(ops@ =~= pin_ops(tx) + acquire_ops(*old(state), id, config) + quiet_ops(
            tx_flags(),
        ));
        bind_interrupt::<I, H, B>(irq, table, &mut ops);
        (half, ops)
    }

    /// Keeps the half in use under a type that does not name the UART.
    pub fn into_any(self) -> (r: AnyTx)
        ensures
            r.id == self.id,
    {
        AnyTx { id: self.id }
    }

    pub fn enable(&self, with_reset: bool) -> (ops: Vec<UartOp>)
        ensures
            ops@ == enable_tx_ops(with_reset),
    {
        let mut ops: Vec<UartOp> = if with_reset {
            self.soft_reset()
        } else {
            Vec::new()
        };
        ops.push(UartOp::ModifyControl(ControlUpdate::EnableTx));
        if with_reset {
            assert(ops@ =~= seq![
                UartOp::ModifyControl(ControlUpdate::ResetTx),
                UartOp::WaitTxReset,
                UartOp::ModifyControl(ControlUpdate::EnableTx),
            ]);
        } else {
            assert(ops@ =~= seq![UartOp::ModifyControl(ControlUpdate::EnableTx)]);
        }
        ops
    }

    pub fn disable(&self) -> (op: UartOp)
        ensures
            op == UartOp::ModifyControl(ControlUpdate::DisableTx),
    {
        UartOp::ModifyControl(ControlUpdate::DisableTx)
    }

    pub fn soft_reset(&self) -> (ops: Vec<UartOp>)
        ensures
            ops@ == seq![UartOp::ModifyControl(ControlUpdate::ResetTx), UartOp::WaitTxReset],
    {
        let ops: Vec<UartOp> = vec![
            UartOp::ModifyControl(ControlUpdate::ResetTx),
            UartOp::WaitTxReset,
        ];
        assert(ops@ =~= seq![
            UartOp::ModifyControl(ControlUpdate::ResetTx),
            UartOp::WaitTxReset,
        ]);
        ops
    }

    pub fn write_fifo_unchecked(&self, word: u8) -> (op: UartOp)
        ensures
            op == UartOp::WriteFifo(word),
    {
        UartOp::WriteFifo(word)
    }

    pub fn write_fifo(&self, word: u8, tx_full: bool) -> (r: Result<UartOp, WouldBlock>)
        ensures
            r == (if tx_full {
                Err(WouldBlock)
            } else {
                Ok(UartOp::WriteFifo(word))
            }),
    {
        if tx_full {
            return Err(WouldBlock);
        }
        Ok(self.write_fifo_unchecked(word))
    }

    /// Whether the transmitter has run empty.
    pub fn flush_blocking(&self, tx_empty: bool) -> (r: Result<(), WouldBlock>)
        ensures
            r == (if tx_empty {
                Ok(())
            } else {
                Err(WouldBlock)
            }),
    {
        if tx_empty {
            Ok(())
        } else {
            Err(WouldBlock)
        }
    }

    pub fn enable_interrupts(&self) -> (op: UartOp)
        ensures
            op == UartOp::WriteIer(tx_flags()),
    {
        UartOp::WriteIer(tx_interrupt_control())
    }

    pub fn disable_interrupts(&self) -> (op: UartOp)
        ensures
            op == UartOp::WriteIdr(tx_flags()),
    {
        UartOp::WriteIdr(tx_interrupt_control())
    }

    pub fn clear_interrupts(&self) -> (op: UartOp)
        ensures
            op == UartOp::WriteIsr(tx_flags()),
    {
        UartOp::WriteIsr(tx_interrupt_status())
    }
}

impl From<UartTx> for AnyTx {
    fn from(value: UartTx) -> (r: Self) {
        value.into_any()
    }
}

impl vstd::std_specs::convert::FromSpecImpl<UartTx> for AnyTx {
    open spec fn obeys_from_spec() -> bool {
        true
    }

    open spec fn from_spec(value: UartTx) -> Self {
        AnyTx { id: value.id }
    }
}

impl UartRx {
    pub open spec fn claims(rx: PinMetadata) -> ClaimedPins {
        ClaimedPins { tx_mio: None, rx_mio: Some(rx.mio), route_id: Some(rx.route_id) }
    }

    pub fn new_blocking(state: &mut State, id: UartId, rx: PinMetadata, config: Config) -> (r: (
        Self,
        Vec<UartOp>,
    ))
        requires
            rx.mio < MIO_COUNT,
            old(state).can_acquire(config, Self::claims(rx)),
        ensures
            r.0.id == id,
            r.1@ == pin_ops(rx) + acquire_ops(*old(state), id, config),
            *final(state) == old(state).acquired(config, 1, Self::claims(rx)),
    {
        let mut ops: Vec<UartOp> = Vec::new();
        configure_mio_pin_for_uart(rx, &mut ops);
        acquire_uart(
            state,
            id,
            config,
            1,
            ClaimedPins { tx_mio: None, rx_mio: Some(rx.mio), route_id: Some(rx.route_id) },
            &mut ops,
        );
        assert(ops@ =~= pin_ops(rx) + acquire_ops(*old(state), id, config));
        (UartRx { id }, ops)
    }

    /// An interrupt-driven half: its interrupts are quiet before its handler is bound.
    pub fn new<I: typelevel::Interrupt, H: typelevel::Handler<I>, B: typelevel::Binding<I, H>>(
        state: &mut State,
        id: UartId,
        rx: PinMetadata,
        irq: B,
        table: &mut HandlerTable,
        config: Config,
    ) -> (r: (Self, Vec<UartOp>))
        requires
            rx.mio < MIO_COUNT,
            old(state).can_acquire(config, Self::claims(rx)),
            HandlerTable::has_slot(I::source()),
            !old(table).conflicts(I::source(), irq.address()),
        ensures
            r.0.id == id,
            r.1@ == pin_ops(rx) + acquire_ops(*old(state), id, config) + quiet_ops(rx_flags())
                + bind_ops::<I>(),
            *final(state) == old(state).acquired(config, 1, Self::claims(rx)),
            final(table)@ == match I::source().number() {
                Some(id) => old(table)@.update(id as int, irq.address()),
                None => old(table)@,
            },
    {
        let (half, mut ops) = UartRx::new_blocking(state, id, rx, config);
        ops.push(half.clear_interrupts());
        ops.push(half.disable_interrupts());
        assert(ops@ =~= pin_ops(rx) + acquire_ops(*old(state), id, config) + quiet_ops(
            rx_flags(),
        ));
        bind_interrupt::<I, H, B>(irq, table, &mut ops);
        (half, ops)
    }

    /// Whether a word can be read, and if not, why. The access acknowledges an error.
    pub fn read_fifo(&self, isr: InterruptFlags, rx_empty: bool) -> (r: (
        Result<(), ReadFifoError>,
        Option<UartOp>,
    ))
        ensures
            match isr.rx_error() {
                Some(error) => r.0 == Err::<(), ReadFifoError>(ReadFifoError::Other(error)) && r.1
                    == Some(UartOp::WriteIsr(rx_flags())),
                None => r.1 is None && r.0 == (if rx_empty {
                    Err::<(), ReadFifoError>(ReadFifoError::WouldBlock)
                } else {
                    Ok(())
                }),
            },
    {
        match take_rx_error(isr) {
            Some((error, op)) => (Err(ReadFifoError::Other(error)), Some(op)),
            None => {
                if rx_empty {
                    (Err(ReadFifoError::WouldBlock), None)
                } else {
                    (Ok(()), None)
                }
            },
        }
    }

    /// The word in the FIFO register.
    pub fn read_fifo_unchecked(&self, register: u32) -> (r: u8)
        ensures
            r == register % 256,
    {
        (register % 256) as u8
    }

    pub fn enable_interrupts(&self) -> (op: UartOp)
        ensures
            op == UartOp::WriteIer(rx_flags()),
    {
        UartOp::WriteIer(rx_interrupt_control())
    }

    pub fn disable_interrupts(&self) -> (op: UartOp)
        ensures
            op == UartOp::WriteIdr(rx_flags()),
    {
        UartOp::WriteIdr(rx_interrupt_control())
    }

    pub fn clear_interrupts(&self) -> (op: UartOp)
        ensures
            op == UartOp::WriteIsr(rx_flags()),
    {
        UartOp::WriteIsr(rx_interrupt_status())
    }
}

impl AnyTx {
    pub fn write_fifo(&self, word: u8, tx_full: bool) -> (r: Result<UartOp, WouldBlock>)
        ensures
            r == (if tx_full {
                Err(WouldBlock)
            } else {
                Ok(UartOp::WriteFifo(word))
            }),
    {
        if tx_full {
            return Err(WouldBlock);
        }
        Ok(UartOp::WriteFifo(word))
    }

    /// Whether the transmitter has run empty.
    pub fn flush_blocking(&self, tx_empty: bool) -> (r: Result<(), WouldBlock>)
        ensures
            r == (if tx_empty {
                Ok(())
            } else {
                Err(WouldBlock)
            }),
    {
        if tx_empty {
            Ok(())
        } else {
            Err(WouldBlock)
        }
    }
}

/// What a blocking write does next.
#[derive(Debug, Clone, Copy, PartialEq, Eq, Structural)]
pub enum WriteStep {
    /// Read the status again.
    Wait,
    Write(u8),
    /// This many bytes were written.
    Done(usize),
}

/// A write that waits for room once and then stops when the FIFO is full.
#[derive(Debug, Clone, Copy, PartialEq, Eq, Structural)]
pub struct BlockingWrite {
    /// The FIFO has had room.
    pub started: bool,
    pub written: usize,
}

impl BlockingWrite {
    pub fn new() -> (r: Self)
        ensures
            r == (BlockingWrite { started: false, written: 0 }),
    {
        BlockingWrite { started: false, written: 0 }
    }

    /// One step, given whether the FIFO is full.
    pub fn step(&mut self, data: &[u8], tx_full: bool) -> (r: WriteStep)
        requires
            old(self).written <= data@.len(),
            !old(self).started ==> old(self).written == 0,
        ensures
            final(self).written <= data@.len(),
            !final(self).started ==> final(self).written == 0,
            ({
                let s = *old(self);
                if data@.len() == 0 {
                    r == WriteStep::Done(0) && *final(self) == s
                } else if !s.started {
                    r == WriteStep::Wait && *final(self) == (BlockingWrite {
                        started: !tx_full,
                        ..s
                    })
                } else if s.written == data@.len() || tx_full {
                    r == WriteStep::Done(s.written) && *final(self) == s
                } else {
                    r == WriteStep::Write(data@[s.written as int]) && *final(self) == (
                    BlockingWrite { written: (s.written + 1) as usize, ..s })
                }
            }),
    {
        if data.len() == 0 {
            return WriteStep::Done(0);
        }
        if !self.started {
            self.started = !tx_full;
            return WriteStep::Wait;
        }
        if self.written == data.len() || tx_full {
            return WriteStep::Done(self.written);
        }
        let byte: u8 = data[self.written];
        self.written = self.written + 1;
        WriteStep::Write(byte)
    }
}

/// What a blocking read does next.
#[derive(Debug, Clone, Copy, PartialEq, Eq)]
pub enum ReadStep {
    /// Store a word of the FIFO at this index of the buffer.
    Store(usize),
    Done(Result<usize, UartError>),
}

/// A read that stops when the FIFO is empty or an error is flagged.
#[derive(Debug, Clone, Copy, PartialEq, Eq, Structural)]
pub struct BlockingRead {
    pub read: usize,
}

impl BlockingRead {
    pub fn new() -> (r: Self)
        ensures
            r.read == 0,
    {
        BlockingRead { read: 0 }
    }

    /// One step of reading into a buffer of `len` bytes, given the status.
    pub fn step(&mut self, rx: &UartRx, len: usize, isr: InterruptFlags, rx_empty: bool) -> (r: (
        ReadStep,
        Option<UartOp>,
    ))
        requires
            old(self).read <= len,
        ensures
            final(self).read <= len,
            ({
                let s = *old(self);
                if s.read == len {
                    r.0 == ReadStep::Done(Ok(s.read)) && r.1 is None && *final(self) == s
                } else if isr.rx_error() is Some {
                    &&& r.0 == ReadStep::Done(Err(isr.rx_error()->0))
                    &&& r.1 == Some(UartOp::WriteIsr(rx_flags()))
                    &&& *final(self) == s
                } else if rx_empty {
                    r.0 == ReadStep::Done(Ok(s.read)) && r.1 is None && *final(self) == s
                } else {
                    &&& r.0 == ReadStep::Store(s.read)
                    &&& r.1 is None
                    &&& final(self).read == s.read + 1
                }
            }),
    {
        if self.read == len {
            return (ReadStep::Done(Ok(self.read)), None);
        }
        match rx.read_fifo(isr, rx_empty) {
            (Err(ReadFifoError::Other(error)), op) => (ReadStep::Done(Err(error)), op),
            (Err(ReadFifoError::WouldBlock), _) => (ReadStep::Done(Ok(self.read)), None),
            (Ok(()), _) => {
                let index: usize = self.read;
                self.read = index + 1;
                (ReadStep::Store(index), None)
            },
        }
    }
}

} // verus!
