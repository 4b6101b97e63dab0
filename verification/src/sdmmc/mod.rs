//! SD host controller driver.
//!
//! [`Sdmmc`] decides the register accesses of the controller: bring-up, commands,
//! DMA transfers and their completion. [`sd`] drives an SD card through it.
use vstd::prelude::*;

use crate::arith;
use crate::cache::{self, AlignmentError, CacheOp};
use crate::chip::Package;
use crate::clocks::{IoClocks, SrcSelIo};
use crate::gpio::{self, AnyPin, GpioOp, IoType, LowLevelGpio, MuxConfig, PinOffset};
use crate::hal::dma;
use crate::hal::sd::adma::{self, Adma2DescriptorTable};
use crate::slcr::{self, AmbaClock, DualRefAndClockReset, SlcrOp};
use crate::Hertz;

pub mod card;
pub mod laws;
pub mod sd;

verus! {

pub const BLOCK_LEN: usize = 512;

pub const MAX_DATA_TRANSFER_BYTES: usize = adma::MAX_TRANSFER_BYTES;

/// The blocks that one descriptor table describes.
pub const MAX_DMA_BLOCKS_PER_BATCH: usize = 4096;

/// Fastest card clock during identification.
pub const INIT_CLOCK_HZ: u32 = 400_000;

/// Card clocks above this need the high-speed timing.
pub const DEFAULT_SPEED_MAX_HZ: u32 = 25_000_000;

/// Largest reference clock divisor: six bits.
pub const REF_CLOCK_DIVISOR_MAX: u32 = 63;

/// Data timeout counter value.
pub const DATA_TIMEOUT: u8 = 0xE;

/// Processor cycles for which the controller is held in reset.
pub const RESET_CYCLES: u32 = 5;

/// Multiplexer setting that routes a pin to an SD host controller.
pub fn mux_conf() -> (r: MuxConfig)
    ensures
        r == sdio_mux(),
        r.wf(),
{
    MuxConfig::new_with_l3(0b100)
}

pub open spec fn sdio_mux() -> MuxConfig {
    MuxConfig { l3: 4, l2: 0, l1: false, l0: false }
}

#[derive(Debug, Clone, Copy, PartialEq, Eq, Structural)]
pub enum SdioId {
    Sdio0,
    Sdio1,
}

impl SdioId {
    pub fn index(self) -> (r: usize)
        ensures
            r == (if self is Sdio0 {
                0int
            } else {
                1
            }),
    {
        match self {
            SdioId::Sdio0 => 0,
            SdioId::Sdio1 => 1,
        }
    }
}

/// Divisor of the card clock.
#[derive(Debug, Clone, Copy, PartialEq, Eq, Structural)]
pub enum SdClockDivisor {
    Div1,
    Div2,
    Div4,
    Div8,
    Div16,
    Div32,
    Div64,
    Div128,
    Div256,
}

impl SdClockDivisor {
    pub open spec fn value(self) -> int {
        match self {
            SdClockDivisor::Div1 => 1,
            SdClockDivisor::Div2 => 2,
            SdClockDivisor::Div4 => 4,
            SdClockDivisor::Div8 => 8,
            SdClockDivisor::Div16 => 16,
            SdClockDivisor::Div32 => 32,
            SdClockDivisor::Div64 => 64,
            SdClockDivisor::Div128 => 128,
            SdClockDivisor::Div256 => 256,
        }
    }

    /// The smallest divisor that is at least `wanted`, or the largest one there is.
    pub open spec fn is_least_for(self, wanted: int) -> bool {
        &&& self.value() >= wanted || self is Div256
        &&& self is Div1 || self.value() < 2 * wanted
    }

    pub fn select(wanted: u32) -> (r: Self)
        ensures
            r.is_least_for(wanted as int),
    {
        if wanted <= 1 {
            SdClockDivisor::Div1
        } else if wanted <= 2 {
            SdClockDivisor::Div2
        } else if wanted <= 4 {
            SdClockDivisor::Div4
        } else if wanted <= 8 {
            SdClockDivisor::Div8
        } else if wanted <= 16 {
            SdClockDivisor::Div16
        } else if wanted <= 32 {
            SdClockDivisor::Div32
        } else if wanted <= 64 {
            SdClockDivisor::Div64
        } else if wanted <= 128 {
            SdClockDivisor::Div128
        } else {
            SdClockDivisor::Div256
        }
    }
}

/// Exactly one divisor is the least for a wanted division.
pub proof fn least_divisor_is_unique(a: SdClockDivisor, b: SdClockDivisor, wanted: int)
    requires
        a.is_least_for(wanted),
        b.is_least_for(wanted),
    ensures
        a == b,
{
}

#[derive(Debug, Clone, Copy, PartialEq, Eq, Structural)]
pub struct SdioDivisors {
    pub divisor_init_phase: SdClockDivisor,
    pub divisor_normal: SdClockDivisor,
}

impl SdioDivisors {
    /// The divisors reach the identification and the transfer speed from `ref_clk`.
    pub open spec fn reach(self, ref_clk: Hertz, target_speed: Hertz) -> bool {
        &&& self.divisor_init_phase.is_least_for(
            arith::ceil_div(ref_clk.hz as int, INIT_CLOCK_HZ as int),
        )
        &&& self.divisor_normal.is_least_for(
            arith::ceil_div(ref_clk.hz as int, target_speed.hz as int),
        )
    }

    pub fn calculate(ref_clk: Hertz, target_speed: Hertz) -> (r: Self)
        requires
            target_speed.hz != 0,
        ensures
            r.reach(ref_clk, target_speed),
    {
        SdioDivisors {
            divisor_init_phase: SdClockDivisor::select(
                arith::div_ceil_u32(ref_clk.raw(), INIT_CLOCK_HZ),
            ),
            divisor_normal: SdClockDivisor::select(
                arith::div_ceil_u32(ref_clk.raw(), target_speed.raw()),
            ),
        }
    }
}

/// A card clock never exceeds its target, as long as the largest divisor can reach it.
pub proof fn card_clock_stays_below_target(ref_hz: int, target_hz: int, d: SdClockDivisor)
    requires
        ref_hz >= 0,
        target_hz > 0,
        ref_hz <= 256 * target_hz,
        d.is_least_for(arith::ceil_div(ref_hz, target_hz)),
    ensures
        ref_hz <= target_hz * d.value(),
{
    let wanted = arith::ceil_div(ref_hz, target_hz);
    arith::ceil_div_is_least_cover(ref_hz, target_hz);
    let v = d.value();
    if d is Div256 {
        assert(v == 256);
    } else {
        assert(wanted * target_hz <= v * target_hz) by (nonlinear_arith)
            requires
                wanted <= v,
                target_hz > 0,
        ;
        assert(v * target_hz == target_hz * v) by (nonlinear_arith);
    }
}

#[derive(Debug, Clone, Copy, PartialEq, Eq, Structural)]
pub struct Config {
    pub src_sel: SrcSelIo,
    pub ref_clock_divisor: u8,
    pub sdio_clock_divisors: SdioDivisors,
    pub high_speed: bool,
    pub io_type: IoType,
}

impl Config {
    pub fn new(
        src_sel: SrcSelIo,
        ref_clock_divisor: u8,
        sdio_clock_divisors: SdioDivisors,
        high_speed: bool,
        io_type: IoType,
    ) -> (r: Self)
        requires
            ref_clock_divisor <= REF_CLOCK_DIVISOR_MAX,
        ensures
            r == (Config { src_sel, ref_clock_divisor, sdio_clock_divisors, high_speed, io_type }),
    {
        Config { src_sel, ref_clock_divisor, sdio_clock_divisors, high_speed, io_type }
    }

    /// The configuration for a reference clock and a card speed, unless the
    /// reference clock needs a larger divisor than there is.
    pub fn calculate_for_io_clock(
        io_clocks: &IoClocks,
        src_sel: SrcSelIo,
        target_ref_clock: Hertz,
        target_sd_speed: Hertz,
        io_type: IoType,
    ) -> (r: Option<Self>)
        requires
            target_ref_clock.hz != 0,
            arith::ceil_div(
                io_clocks.selected(src_sel).hz as int,
                target_ref_clock.hz as int,
            ) <= REF_CLOCK_DIVISOR_MAX ==> target_sd_speed.hz != 0 && io_clocks.selected(
                src_sel,
            ).hz != 0,
        ensures
            ({
                let ref_clk = io_clocks.selected(src_sel);
                let divisor = arith::ceil_div(ref_clk.hz as int, target_ref_clock.hz as int);
                &&& r is None <==> divisor > REF_CLOCK_DIVISOR_MAX
                &&& r is Some ==> {
                    let c = r->0;
                    &&& c.src_sel == src_sel
                    &&& c.ref_clock_divisor == divisor
                    &&& c.sdio_clock_divisors.reach(
                        Hertz { hz: (ref_clk.hz as int / divisor) as u32 },
                        target_sd_speed,
                    )
                    &&& c.high_speed == (target_sd_speed.hz > DEFAULT_SPEED_MAX_HZ)
                    &&& c.io_type == io_type
                }
            }),
    {
        let ref_clk = io_clocks.selected_ref_clk(src_sel);
        let divisor: u32 = arith::div_ceil_u32(ref_clk.raw(), target_ref_clock.raw());
        proof {
            arith::ceil_div_is_least_cover(ref_clk.hz as int, target_ref_clock.hz as int);
        }
        if divisor > REF_CLOCK_DIVISOR_MAX {
            return None;
        }
        let target_speed = ref_clk.divided_by(divisor);
        Some(
            Config {
                src_sel,
                ref_clock_divisor: divisor as u8,
                sdio_clock_divisors: SdioDivisors::calculate(target_speed, target_sd_speed),
                high_speed: target_sd_speed.raw() > DEFAULT_SPEED_MAX_HZ,
                io_type,
            },
        )
    }
}

#[derive(Debug, Clone, Copy, PartialEq, Eq, Structural)]
pub enum BusMode {
    OneBit,
    FourBit,
}

#[derive(Debug, Clone, Copy, PartialEq, Eq, Structural)]
pub enum Error {
    ResponseError(ResponseErrorBits),
    DataError(DataErrorBits),
    AdmaError(AdmaErrorBits),
    UnexpectedResponse,
    NoCard,
    InvalidBlockSize,
    TooManyBlocks,
    UnsupportedCardVersion,
    UnsupportedVoltage,
    InvalidPeripheral,
    CacheAlignment,
    CacheUnavailable,
    TransferTooLarge,
    CardInitTimeout,
    ProgrammingTimeout,
}

impl From<AlignmentError> for Error {
    fn from(value: AlignmentError) -> (r: Self) {
        match value {
            AlignmentError::Unaligned => Error::CacheAlignment,
            AlignmentError::Unavailable => Error::CacheUnavailable,
        }
    }
}

impl vstd::std_specs::convert::FromSpecImpl<AlignmentError> for Error {
    open spec fn obeys_from_spec() -> bool {
        true
    }

    open spec fn from_spec(value: AlignmentError) -> Self {
        match value {
            AlignmentError::Unaligned => Error::CacheAlignment,
            AlignmentError::Unavailable => Error::CacheUnavailable,
        }
    }
}

#[derive(Debug, Clone, Copy, PartialEq, Eq, Structural)]
pub struct ResponseErrorBits {
    pub index: bool,
    pub crc: bool,
    pub end_bit: bool,
    pub timeout: bool,
}

impl ResponseErrorBits {
    pub fn has_error(&self) -> (r: bool)
        ensures
            r == (self.index || self.crc || self.end_bit || self.timeout),
    {
        self.index || self.crc || self.end_bit || self.timeout
    }

    pub fn timeout(&self) -> (r: bool)
        ensures
            r == self.timeout,
    {
        self.timeout
    }
}

#[derive(Debug, Clone, Copy, PartialEq, Eq, Structural)]
pub struct DataErrorBits {
    pub crc: bool,
    pub timeout: bool,
    pub end_bit: bool,
}

/// State of the DMA engine when it failed.
#[derive(Debug, Clone, Copy, PartialEq, Eq, Structural)]
pub enum AdmaErrorState {
    StopDma,
    FetchDescriptor,
    Reserved,
    TransferData,
}

/// Fields of the DMA error status register.
#[derive(Debug, Clone, Copy, PartialEq, Eq, Structural)]
pub struct AdmaErrorStatus {
    pub length_mismatch_error: bool,
    pub error_state: AdmaErrorState,
}

#[derive(Debug, Clone, Copy, PartialEq, Eq, Structural)]
pub struct AdmaErrorBits {
    pub length_mismatch: bool,
    pub state: AdmaErrorState,
}

impl From<AdmaErrorStatus> for AdmaErrorBits {
    fn from(value: AdmaErrorStatus) -> (r: Self) {
        AdmaErrorBits { length_mismatch: value.length_mismatch_error, state: value.error_state }
    }
}

impl vstd::std_specs::convert::FromSpecImpl<AdmaErrorStatus> for AdmaErrorBits {
    open spec fn obeys_from_spec() -> bool {
        true
    }

    open spec fn from_spec(value: AdmaErrorStatus) -> Self {
        AdmaErrorBits { length_mismatch: value.length_mismatch_error, state: value.error_state }
    }
}

/// The interrupt status, enable and signal bits that the driver uses.
#[derive(Debug, Clone, Copy, PartialEq, Eq, Structural)]
pub struct InterruptStatus {
    pub command_complete: bool,
    pub transfer_complete: bool,
    pub dma_interrupt: bool,
    pub error_interrupt: bool,
    pub command_timeout_error: bool,
    pub command_crc_error: bool,
    pub command_end_bit_error: bool,
    pub command_index_error: bool,
    pub data_timeout_error: bool,
    pub data_crc_error: bool,
    pub data_end_bit_error: bool,
    pub current_limit_error: bool,
    pub auto_cmd12_error: bool,
    pub adma_error: bool,
    pub target_response_error: bool,
    pub ceata_error_status: bool,
}

/// No bit set.
pub open spec fn no_status() -> InterruptStatus {
    InterruptStatus {
        command_complete: false,
        transfer_complete: false,
        dma_interrupt: false,
        error_interrupt: false,
        command_timeout_error: false,
        command_crc_error: false,
        command_end_bit_error: false,
        command_index_error: false,
        data_timeout_error: false,
        data_crc_error: false,
        data_end_bit_error: false,
        current_limit_error: false,
        auto_cmd12_error: false,
        adma_error: false,
        target_response_error: false,
        ceata_error_status: false,
    }
}

/// The bits that wake a waiting command.
pub open spec fn command_signals() -> InterruptStatus {
    InterruptStatus {
        command_complete: true,
        command_timeout_error: true,
        command_crc_error: true,
        command_end_bit_error: true,
        command_index_error: true,
        ..no_status()
    }
}

/// The bits that wake a waiting data transfer.
pub open spec fn transfer_signals() -> InterruptStatus {
    InterruptStatus {
        transfer_complete: true,
        dma_interrupt: true,
        data_timeout_error: true,
        data_crc_error: true,
        data_end_bit_error: true,
        adma_error: true,
        auto_cmd12_error: true,
        target_response_error: true,
        current_limit_error: true,
        ceata_error_status: true,
        ..no_status()
    }
}

impl InterruptStatus {
    pub fn zero() -> (r: Self)
        ensures
            r == no_status(),
    {
        InterruptStatus {
            command_complete: false,
            transfer_complete: false,
            dma_interrupt: false,
            error_interrupt: false,
            command_timeout_error: false,
            command_crc_error: false,
            command_end_bit_error: false,
            command_index_error: false,
            data_timeout_error: false,
            data_crc_error: false,
            data_end_bit_error: false,
            current_limit_error: false,
            auto_cmd12_error: false,
            adma_error: false,
            target_response_error: false,
            ceata_error_status: false,
        }
    }

    /// A command is over: it completed or something failed.
    pub open spec fn command_over(self) -> bool {
        self.command_complete || self.error_interrupt
    }

    /// A failure outside of the data and DMA path.
    pub open spec fn other_error(self) -> bool {
        self.auto_cmd12_error || self.target_response_error || self.current_limit_error
            || self.ceata_error_status
    }

    pub open spec fn data_error(self) -> bool {
        self.data_timeout_error || self.data_crc_error || self.data_end_bit_error
    }

    /// A data transfer is over: it completed or something failed.
    pub open spec fn transfer_over(self) -> bool {
        self.transfer_complete || self.adma_error || self.error_interrupt || self.other_error()
    }
}

#[derive(Debug, Clone, Copy, PartialEq, Eq, Structural)]
pub struct StatusWrapper(pub InterruptStatus);

impl StatusWrapper {
    pub open spec fn response_error_bits(self) -> ResponseErrorBits {
        ResponseErrorBits {
            index: self.0.command_index_error,
            crc: self.0.command_crc_error,
            end_bit: self.0.command_end_bit_error,
            timeout: self.0.command_timeout_error,
        }
    }

    pub open spec fn data_error_bits(self) -> DataErrorBits {
        DataErrorBits {
            crc: self.0.data_crc_error,
            timeout: self.0.data_timeout_error,
            end_bit: self.0.data_end_bit_error,
        }
    }

    pub open spec fn response_failed(self) -> bool {
        self.0.command_index_error || self.0.command_crc_error || self.0.command_end_bit_error
            || self.0.command_timeout_error
    }

    pub fn response_errors(&self) -> (r: ResponseErrorBits)
        ensures
            r == self.response_error_bits(),
    {
        ResponseErrorBits {
            index: self.0.command_index_error,
            crc: self.0.command_crc_error,
            end_bit: self.0.command_end_bit_error,
            timeout: self.0.command_timeout_error,
        }
    }

    pub fn has_response_errors(&self) -> (r: bool)
        ensures
            r == self.response_failed(),
    {
        self.response_errors().has_error()
    }

    pub fn data_errors(&self) -> (r: DataErrorBits)
        ensures
            r == self.data_error_bits(),
    {
        DataErrorBits {
            crc: self.0.data_crc_error,
            timeout: self.0.data_timeout_error,
            end_bit: self.0.data_end_bit_error,
        }
    }

    pub fn has_data_error(&self) -> (r: bool)
        ensures
            r == self.0.data_error(),
    {
        self.0.data_timeout_error || self.0.data_crc_error || self.0.data_end_bit_error
    }
}

#[derive(Debug, Clone, Copy, PartialEq, Eq, Structural)]
pub enum ResponseType {
    NoResponse,
    Bits136,
    Bits48,
    Bits48WithCheck,
}

#[derive(Debug, Clone, Copy, PartialEq, Eq, Structural)]
pub enum BlockSelect {
    SingleBlock,
    MultiBlock,
}

#[derive(Debug, Clone, Copy, PartialEq, Eq, Structural)]
pub enum TransferDirection {
    Write,
    Read,
}

#[derive(Debug, Clone, Copy, PartialEq, Eq, Structural)]
pub enum CommandType {
    Normal,
    Suspend,
    Resume,
    Abort,
}

/// Fields of the transfer mode and command register.
#[derive(Debug, Clone, Copy, PartialEq, Eq, Structural)]
pub struct CommandRegister {
    pub command_index: u8,
    pub command_type: CommandType,
    pub data_is_present: bool,
    pub command_index_check_enable: bool,
    pub command_crc_check_enable: bool,
    pub response_type_select: ResponseType,
    pub block_select: BlockSelect,
    pub data_transfer_direction: TransferDirection,
    pub auto_cmd12_enable: bool,
    pub block_count_enable: bool,
    pub dma_enable: bool,
}

/// Command indices have six bits.
pub const COMMAND_INDEX_MAX: u8 = 63;

pub open spec fn command_without_data(
    id: u8,
    response_type: ResponseType,
    index_check: bool,
    crc_check: bool,
) -> CommandRegister {
    CommandRegister {
        command_index: id,
        command_type: CommandType::Normal,
        data_is_present: false,
        command_index_check_enable: index_check,
        command_crc_check_enable: crc_check,
        response_type_select: response_type,
        block_select: BlockSelect::SingleBlock,
        data_transfer_direction: TransferDirection::Write,
        auto_cmd12_enable: false,
        block_count_enable: false,
        dma_enable: false,
    }
}

pub open spec fn data_command(
    id: u8,
    block_select: BlockSelect,
    direction: TransferDirection,
    auto_cmd12: bool,
    block_count: bool,
) -> CommandRegister {
    CommandRegister {
        command_index: id,
        command_type: CommandType::Normal,
        data_is_present: true,
        command_index_check_enable: true,
        command_crc_check_enable: true,
        response_type_select: ResponseType::Bits48,
        block_select,
        data_transfer_direction: direction,
        auto_cmd12_enable: auto_cmd12,
        block_count_enable: block_count,
        dma_enable: true,
    }
}

pub fn build_command_without_data(
    id: u8,
    response_type: ResponseType,
    index_check: bool,
    crc_check: bool,
) -> (r: CommandRegister)
    requires
        id <= COMMAND_INDEX_MAX,
    ensures
        r == command_without_data(id, response_type, index_check, crc_check),
{
    CommandRegister {
        command_index: id,
        command_type: CommandType::Normal,
        data_is_present: false,
        command_index_check_enable: index_check,
        command_crc_check_enable: crc_check,
        response_type_select: response_type,
        block_select: BlockSelect::SingleBlock,
        data_transfer_direction: TransferDirection::Write,
        auto_cmd12_enable: false,
        block_count_enable: false,
        dma_enable: false,
    }
}

pub fn build_data_command(
    id: u8,
    block_select: BlockSelect,
    direction: TransferDirection,
    auto_cmd12: bool,
    block_count: bool,
) -> (r: CommandRegister)
    requires
        id <= COMMAND_INDEX_MAX,
    ensures
        r == data_command(id, block_select, direction, auto_cmd12, block_count),
{
    CommandRegister {
        command_index: id,
        command_type: CommandType::Normal,
        data_is_present: true,
        command_index_check_enable: true,
        command_crc_check_enable: true,
        response_type_select: ResponseType::Bits48,
        block_select,
        data_transfer_direction: direction,
        auto_cmd12_enable: auto_cmd12,
        block_count_enable: block_count,
        dma_enable: true,
    }
}

/// The commands that the card protocol uses.
#[derive(Debug, Clone, Copy, PartialEq, Eq, Structural)]
pub enum Command {
    Cmd0GoIdleMode,
    Cmd2AllSendCid,
    Cmd3SendRelativeAddr,
    Cmd7SelectSdCard,
    Cmd8SendIfCond,
    Cmd9SendCsd,
    Cmd13SendStatus,
    Cmd16SetBlocklen,
    Cmd17ReadSingleBlock,
    Cmd18ReadMultipleBlocks,
    Cmd24WriteBlock,
    Cmd25WriteMultipleBlocks,
    Cmd55AppCmd,
    Acmd6SetBusWidth,
    Acmd41SendOpCond,
    Acmd51SendScr,
}

impl Command {
    pub open spec fn encoding(self) -> CommandRegister {
        match self {
            Command::Cmd0GoIdleMode => command_without_data(
                0,
                ResponseType::NoResponse,
                false,
                false,
            ),
            Command::Cmd2AllSendCid => command_without_data(2, ResponseType::Bits136, false, true),
            Command::Cmd3SendRelativeAddr => command_without_data(
                3,
                ResponseType::Bits48WithCheck,
                false,
                false,
            ),
            Command::Cmd7SelectSdCard => command_without_data(7, ResponseType::Bits48, true, true),
            Command::Cmd8SendIfCond => command_without_data(8, ResponseType::Bits48, true, true),
            Command::Cmd9SendCsd => command_without_data(9, ResponseType::Bits136, false, true),
            Command::Cmd13SendStatus => command_without_data(13, ResponseType::Bits48, true, true),
            Command::Cmd16SetBlocklen => command_without_data(16, ResponseType::Bits48, true, true),
            Command::Cmd55AppCmd => command_without_data(55, ResponseType::Bits48, true, true),
            Command::Acmd6SetBusWidth => command_without_data(6, ResponseType::Bits48, true, true),
            Command::Acmd41SendOpCond => command_without_data(
                41,
                ResponseType::Bits48,
                false,
                false,
            ),
            Command::Acmd51SendScr => data_command(
                51,
                BlockSelect::SingleBlock,
                TransferDirection::Read,
                false,
                false,
            ),
            Command::Cmd17ReadSingleBlock => data_command(
                17,
                BlockSelect::SingleBlock,
                TransferDirection::Read,
                false,
                false,
            ),
            Command::Cmd18ReadMultipleBlocks => data_command(
                18,
                BlockSelect::MultiBlock,
                TransferDirection::Read,
                true,
                true,
            ),
            Command::Cmd24WriteBlock => data_command(
                24,
                BlockSelect::SingleBlock,
                TransferDirection::Write,
                false,
                false,
            ),
            Command::Cmd25WriteMultipleBlocks => data_command(
                25,
                BlockSelect::MultiBlock,
                TransferDirection::Write,
                true,
                true,
            ),
        }
    }

    pub fn register(self) -> (r: CommandRegister)
        ensures
            r == self.encoding(),
    {
        match self {
            Command::Cmd0GoIdleMode => build_command_without_data(
                0,
                ResponseType::NoResponse,
                false,
                false,
            ),
            Command::Cmd2AllSendCid => build_command_without_data(
                2,
                ResponseType::Bits136,
                false,
                true,
            ),
            Command::Cmd3SendRelativeAddr => build_command_without_data(
                3,
                ResponseType::Bits48WithCheck,
                false,
                false,
            ),
            Command::Cmd7SelectSdCard => build_command_without_data(
                7,
                ResponseType::Bits48,
                true,
                true,
            ),
            Command::Cmd8SendIfCond => build_command_without_data(
                8,
                ResponseType::Bits48,
                true,
                true,
            ),
            Command::Cmd9SendCsd => build_command_without_data(
                9,
                ResponseType::Bits136,
                false,
                true,
            ),
            Command::Cmd13SendStatus => build_command_without_data(
                13,
                ResponseType::Bits48,
                true,
                true,
            ),
            Command::Cmd16SetBlocklen => build_command_without_data(
                16,
                ResponseType::Bits48,
                true,
                true,
            ),
            Command::Cmd55AppCmd => build_command_without_data(
                55,
                ResponseType::Bits48,
                true,
                true,
            ),
            Command::Acmd6SetBusWidth => build_command_without_data(
                6,
                ResponseType::Bits48,
                true,
                true,
            ),
            Command::Acmd41SendOpCond => build_command_without_data(
                41,
                ResponseType::Bits48,
                false,
                false,
            ),
            Command::Acmd51SendScr => build_data_command(
                51,
                BlockSelect::SingleBlock,
                TransferDirection::Read,
                false,
                false,
            ),
            Command::Cmd17ReadSingleBlock => build_data_command(
                17,
                BlockSelect::SingleBlock,
                TransferDirection::Read,
                false,
                false,
            ),
            Command::Cmd18ReadMultipleBlocks => build_data_command(
                18,
                BlockSelect::MultiBlock,
                TransferDirection::Read,
                true,
                true,
            ),
            Command::Cmd24WriteBlock => build_data_command(
                24,
                BlockSelect::SingleBlock,
                TransferDirection::Write,
                false,
                false,
            ),
            Command::Cmd25WriteMultipleBlocks => build_data_command(
                25,
                BlockSelect::MultiBlock,
                TransferDirection::Write,
                true,
                true,
            ),
        }
    }
}

/// An update of the clock, timeout and software reset register.
#[derive(Debug, Clone, Copy, PartialEq, Eq, Structural)]
pub enum ClockUpdate {
    SoftwareResetForAll,
    SdclkFrequencySelect(SdClockDivisor),
    InternalClockEnable,
    SdClockEnable(bool),
    DataTimeoutCounter(u8),
}

/// What the driver uses of the clock, timeout and software reset register. The rest
/// of the register is kept when these fields are written.
#[derive(Debug, Clone, Copy, PartialEq, Eq, Structural)]
pub struct ClockControl {
    pub software_reset_for_all: bool,
    pub data_timeout_counter_value: u8,
    pub sdclk_frequency_select: SdClockDivisor,
    pub sd_clock_enable: bool,
    pub internal_clock_stable: bool,
    pub internal_clock_enable: bool,
}

impl ClockUpdate {
    pub open spec fn applied(self, val: ClockControl) -> ClockControl {
        match self {
            ClockUpdate::SoftwareResetForAll => ClockControl {
                software_reset_for_all: true,
                ..val
            },
            ClockUpdate::SdclkFrequencySelect(divisor) => ClockControl {
                sdclk_frequency_select: divisor,
                ..val
            },
            ClockUpdate::InternalClockEnable => ClockControl { internal_clock_enable: true, ..val },
            ClockUpdate::SdClockEnable(enable) => ClockControl { sd_clock_enable: enable, ..val },
            ClockUpdate::DataTimeoutCounter(value) => ClockControl {
                data_timeout_counter_value: value,
                ..val
            },
        }
    }

    /// The register after the update.
    pub fn apply(self, val: ClockControl) -> (r: ClockControl)
        ensures
            r == self.applied(val),
    {
        match self {
            ClockUpdate::SoftwareResetForAll => ClockControl {
                software_reset_for_all: true,
                ..val
            },
            ClockUpdate::SdclkFrequencySelect(divisor) => ClockControl {
                sdclk_frequency_select: divisor,
                ..val
            },
            ClockUpdate::InternalClockEnable => ClockControl { internal_clock_enable: true, ..val },
            ClockUpdate::SdClockEnable(enable) => ClockControl { sd_clock_enable: enable, ..val },
            ClockUpdate::DataTimeoutCounter(value) => ClockControl {
                data_timeout_counter_value: value,
                ..val
            },
        }
    }
}

/// An update of the host, power, block gap and wakeup control register.
#[derive(Debug, Clone, Copy, PartialEq, Eq, Structural)]
pub enum HostUpdate {
    /// Bus power on at 3.3 V, 32-bit descriptor DMA, one data line, default speed.
    PowerUp,
    BusWidth { mode: BusMode, high_speed: bool },
}

/// The bus voltage that is selected, or another code of the field.
#[derive(Debug, Clone, Copy, PartialEq, Eq, Structural)]
pub enum SdBusVoltageSelect {
    V3_3,
    Other(u8),
}

/// The DMA engine that is selected, or another code of the field.
#[derive(Debug, Clone, Copy, PartialEq, Eq, Structural)]
pub enum DmaSelect {
    Adma2_32Bits,
    Other(u8),
}

/// What the driver uses of the host, power, block gap and wakeup control register.
/// The rest of the register is kept when these fields are written.
#[derive(Debug, Clone, Copy, PartialEq, Eq, Structural)]
pub struct HostControl {
    pub sd_bus_power: bool,
    pub sd_bus_voltage_select: SdBusVoltageSelect,
    pub dma_select: DmaSelect,
    pub bus_width: BusMode,
    pub high_speed_enable: bool,
}

impl HostUpdate {
    pub open spec fn applied(self, val: HostControl) -> HostControl {
        match self {
            HostUpdate::PowerUp => HostControl {
                sd_bus_power: true,
                sd_bus_voltage_select: SdBusVoltageSelect::V3_3,
                dma_select: DmaSelect::Adma2_32Bits,
                bus_width: BusMode::OneBit,
                high_speed_enable: false,
            },
            HostUpdate::BusWidth { mode, high_speed } => HostControl {
                bus_width: mode,
                high_speed_enable: high_speed,
                ..val
            },
        }
    }

    /// The register after the update.
    pub fn apply(self, val: HostControl) -> (r: HostControl)
        ensures
            r == self.applied(val),
    {
        match self {
            HostUpdate::PowerUp => HostControl {
                sd_bus_power: true,
                sd_bus_voltage_select: SdBusVoltageSelect::V3_3,
                dma_select: DmaSelect::Adma2_32Bits,
                bus_width: BusMode::OneBit,
                high_speed_enable: false,
            },
            HostUpdate::BusWidth { mode, high_speed } => HostControl {
                bus_width: mode,
                high_speed_enable: high_speed,
                ..val
            },
        }
    }
}

/// One access of the driver.
#[derive(Debug, Clone, Copy, PartialEq, Eq, Structural)]
pub enum SdioOp {
    Slcr(SlcrOp),
    Cache(CacheOp),
    ModifyClock(ClockUpdate),
    /// Wait until the software reset is over.
    WaitResetDone,
    /// Wait until the internal clock is stable.
    WaitInternalClockStable,
    ModifyHost(HostUpdate),
    /// Set the transfer block size, and the block count where there is one.
    ModifyBlockParams { block_size: u16, block_count: Option<u16> },
    /// Let every status bit but the card interrupt be reported.
    EnableAllStatusButCard,
    WriteSignalEnable(InterruptStatus),
    /// Clear every status bit.
    AckAllStatus,
    /// Clear the bits that are set in the given status.
    AckStatus(InterruptStatus),
    WriteArgument(u32),
    WriteCommand(CommandRegister),
    WriteAdmaSystemAddress(u32),
    ClearAdmaError,
}

/// One poll of a waiting command.
#[derive(Debug)]
pub enum CommandPoll {
    /// Perform the accesses and wait for the next interrupt.
    Pending(Vec<SdioOp>),
    /// Perform the accesses; the command is over.
    Ready(Vec<SdioOp>, StatusWrapper),
}

/// One poll of a waiting data transfer.
#[derive(Debug)]
pub enum TransferPoll {
    /// Perform the accesses and wait for the next interrupt.
    Pending(Vec<SdioOp>),
    /// Perform the accesses; the transfer is over.
    Ready(Vec<SdioOp>, Result<(), Error>),
    /// Perform the accesses, read the DMA error status and hand it to
    /// [`Sdmmc::adma_failure`].
    AdmaFailed(Vec<SdioOp>),
}

/// Accesses to perform, and whether they end in failure.
#[derive(Debug)]
pub struct Prepared {
    pub ops: Vec<SdioOp>,
    pub result: Result<(), Error>,
}

/// Accesses that acknowledge what woke the transfer, in order.
pub open spec fn transfer_ack_ops(status: InterruptStatus) -> Seq<SdioOp> {
    dma_ack_ops(status) + seq![
        SdioOp::WriteSignalEnable(no_status()),
        SdioOp::AckStatus(status),
    ]
}

/// A DMA interrupt is acknowledged whether or not the transfer is over.
pub open spec fn dma_ack_ops(status: InterruptStatus) -> Seq<SdioOp> {
    if status.dma_interrupt {
        seq![SdioOp::AckStatus(InterruptStatus { dma_interrupt: true, ..no_status() })]
    } else {
        Seq::empty()
    }
}

pub open spec fn as_sdio_ops(ops: Seq<CacheOp>) -> Seq<SdioOp> {
    Seq::new(ops.len(), |i: int| SdioOp::Cache(ops[i]))
}

fn push_cache_ops(out: &mut Vec<SdioOp>, ops: &Vec<CacheOp>)
    ensures
        final(out)@ == old(out)@ + as_sdio_ops(ops@),
{
    let ghost before = out@;
    let mut i: usize = 0;
    assert(out@ =~= before + as_sdio_ops(ops@).take(0));
    while i < ops.len()
        invariant
            i <= ops.len(),
            out@ == before + as_sdio_ops(ops@).take(i as int),
        decreases ops.len() - i,
    {
        assert(as_sdio_ops(ops@).take(i + 1) =~= as_sdio_ops(ops@).take(i as int).push(
            SdioOp::Cache(ops@[i as int]),
        ));
        out.push(SdioOp::Cache(ops[i]));
        i += 1;
    }
    assert(as_sdio_ops(ops@).take(i as int) =~= as_sdio_ops(ops@));
}

fn push_slcr_ops(out: &mut Vec<SdioOp>, ops: &Vec<SlcrOp>)
    ensures
        final(out)@ == old(out)@ + as_slcr_ops(ops@),
{
    let ghost before = out@;
    let mut i: usize = 0;
    assert(out@ =~= before + as_slcr_ops(ops@).take(0));
    while i < ops.len()
        invariant
            i <= ops.len(),
            out@ == before + as_slcr_ops(ops@).take(i as int),
        decreases ops.len() - i,
    {
        assert(as_slcr_ops(ops@).take(i + 1) =~= as_slcr_ops(ops@).take(i as int).push(
            SdioOp::Slcr(ops@[i as int]),
        ));
        out.push(SdioOp::Slcr(ops[i]));
        i += 1;
    }
    assert(as_slcr_ops(ops@).take(i as int) =~= as_slcr_ops(ops@));
}

pub open spec fn as_slcr_ops(ops: Seq<SlcrOp>) -> Seq<SdioOp> {
    Seq::new(ops.len(), |i: int| SdioOp::Slcr(ops[i]))
}

/// The reset lines of one controller.
pub open spec fn reset_lines(id: SdioId) -> DualRefAndClockReset {
    DualRefAndClockReset {
        periph0_ref_rst: id is Sdio0,
        periph1_ref_rst: id is Sdio1,
        periph0_cpu1x_rst: id is Sdio0,
        periph1_cpu1x_rst: id is Sdio1,
    }
}

pub open spec fn no_reset_lines() -> DualRefAndClockReset {
    DualRefAndClockReset {
        periph0_ref_rst: false,
        periph1_ref_rst: false,
        periph0_cpu1x_rst: false,
        periph1_cpu1x_rst: false,
    }
}

/// Ungates the bus clock of one controller.
pub fn enable_amba_peripheral_clock(id: SdioId) -> (ops: Vec<SlcrOp>)
    ensures
        ops@ == slcr::unlocked_one(SlcrOp::EnableAmbaClock(AmbaClock::Sdio(id))),
{
    slcr::with_unlocked_one(SlcrOp::EnableAmbaClock(AmbaClock::Sdio(id)))
}

/// Holds one controller in reset for some processor cycles.
pub fn reset(id: SdioId, cycles: u32) -> (ops: Vec<SlcrOp>)
    ensures
        ops@ == slcr::reset_pulse(
            SlcrOp::WriteSdioReset(reset_lines(id)),
            cycles,
            SlcrOp::WriteSdioReset(no_reset_lines()),
        ),
{
    let first: bool = matches!(id, SdioId::Sdio0);
    let assert_reset = DualRefAndClockReset {
        periph0_ref_rst: first,
        periph1_ref_rst: !first,
        periph0_cpu1x_rst: first,
        periph1_cpu1x_rst: !first,
    };
    let release = DualRefAndClockReset {
        periph0_ref_rst: false,
        periph1_ref_rst: false,
        periph0_cpu1x_rst: false,
        periph1_cpu1x_rst: false,
    };
    slcr::with_reset_pulse(
        SlcrOp::WriteSdioReset(assert_reset),
        cycles,
        SlcrOp::WriteSdioReset(release),
    )
}

/// Pins of a four-bit bus.
#[derive(Debug, Clone, Copy, PartialEq, Eq, Structural)]
pub struct BusPins {
    pub clk: u8,
    pub cmd: u8,
    pub d0: u8,
    pub d1: u8,
    pub d2: u8,
    pub d3: u8,
}

/// The pin groups that can be routed to a controller, by their lowest pin. The
/// package has to bring the whole group out.
pub open spec fn is_route_base(package: Package, id: SdioId, base: int) -> bool {
    &&& match id {
        SdioId::Sdio0 => base == 16 || base == 28 || base == 40,
        SdioId::Sdio1 => base == 10 || base == 22 || base == 34 || base == 46,
    }
    &&& package.bonds(base)
    &&& package.bonds(base + 5)
}

/// The pins of the group that starts at `base`. The second controller has its
/// clock behind command and first data line.
pub open spec fn route_pins(id: SdioId, base: int) -> BusPins {
    match id {
        SdioId::Sdio0 => BusPins {
            clk: base as u8,
            cmd: (base + 1) as u8,
            d0: (base + 2) as u8,
            d1: (base + 3) as u8,
            d2: (base + 4) as u8,
            d3: (base + 5) as u8,
        },
        SdioId::Sdio1 => BusPins {
            clk: (base + 2) as u8,
            cmd: (base + 1) as u8,
            d0: base as u8,
            d1: (base + 3) as u8,
            d2: (base + 4) as u8,
            d3: (base + 5) as u8,
        },
    }
}

/// The pins belong to one group of the controller.
pub open spec fn is_bus_4bit(package: Package, id: SdioId, pins: BusPins) -> bool {
    exists|base: int| #[trigger] is_route_base(package, id, base) && pins == route_pins(id, base)
}

fn route_base_supported(package: Package, id: SdioId, base: u8) -> (r: bool)
    ensures
        r == is_route_base(package, id, base as int),
{
    let lowest: bool = match id {
        SdioId::Sdio0 => base == 16 || base == 28 || base == 40,
        SdioId::Sdio1 => base == 10 || base == 22 || base == 34 || base == 46,
    };
    lowest && package.brings_out(base) && package.brings_out(base + 5)
}

/// Whether the pins form a legal four-bit bus of the controller.
pub fn bus_4bit_supported(package: Package, id: SdioId, pins: BusPins) -> (r: bool)
    ensures
        r == is_bus_4bit(package, id, pins),
{
    let base: u8 = match id {
        SdioId::Sdio0 => pins.clk,
        SdioId::Sdio1 => pins.d0,
    };
    if !route_base_supported(package, id, base) {
        return false;
    }
    let clk_and_d0: bool = match id {
        SdioId::Sdio0 => pins.clk == base && pins.d0 == base + 2,
        SdioId::Sdio1 => pins.clk == base + 2 && pins.d0 == base,
    };
    clk_and_d0 && pins.cmd == base + 1 && pins.d1 == base + 3 && pins.d2 == base + 4 && pins.d3
        == base + 5
}

/// Clock, command and first data line belong to one group of the controller.
pub open spec fn is_bus_1bit(package: Package, id: SdioId, clk: u8, cmd: u8, d0: u8) -> bool {
    exists|base: int|
        {
            &&& #[trigger] is_route_base(package, id, base)
            &&& clk == route_pins(id, base).clk
            &&& cmd == route_pins(id, base).cmd
            &&& d0 == route_pins(id, base).d0
        }
}

/// Whether the pins form a legal one-bit bus of the controller.
pub fn bus_1bit_supported(package: Package, id: SdioId, clk: u8, cmd: u8, d0: u8) -> (r: bool)
    ensures
        r == is_bus_1bit(package, id, clk, cmd, d0),
{
    let base: u8 = match id {
        SdioId::Sdio0 => clk,
        SdioId::Sdio1 => d0,
    };
    if !route_base_supported(package, id, base) {
        return false;
    }
    match id {
        SdioId::Sdio0 => cmd == base + 1 && d0 == base + 2,
        SdioId::Sdio1 => cmd == base + 1 && clk == base + 2,
    }
}

/// The first lines of a legal four-bit bus are a legal one-bit bus.
pub proof fn four_bit_bus_holds_a_one_bit_bus(package: Package, id: SdioId, pins: BusPins)
    requires
        is_bus_4bit(package, id, pins),
    ensures
        is_bus_1bit(package, id, pins.clk, pins.cmd, pins.d0),
{
    let base = choose|base: int| #[trigger]
        is_route_base(package, id, base) && pins == route_pins(id, base);
    assert(is_route_base(package, id, base));
}

/// A pin is never shared by two legal bus groups of the controllers.
pub proof fn bus_groups_are_disjoint(
    a: SdioId,
    a_base: int,
    b: SdioId,
    b_base: int,
)
    requires
        is_route_base(Package::Full, a, a_base),
        is_route_base(Package::Full, b, b_base),
        a != b || a_base != b_base,
    ensures
        a_base + 6 <= b_base || b_base + 6 <= a_base,
{
}

pub open spec fn clock_ops(id: SdioId, config: Config) -> Seq<SdioOp> {
    seq![
        SdioOp::Slcr(SlcrOp::WriteUnlock(slcr::UNLOCK_KEY)),
        SdioOp::Slcr(
            SlcrOp::ModifySdioClock {
                src_sel: config.src_sel,
                divisor: config.ref_clock_divisor,
                activate: id,
            },
        ),
        SdioOp::Slcr(SlcrOp::WriteLock(slcr::LOCK_KEY)),
        SdioOp::ModifyClock(
            ClockUpdate::SdclkFrequencySelect(config.sdio_clock_divisors.divisor_init_phase),
        ),
    ]
}

/// The bring-up of a controller: clocks, reset, identification speed, one data
/// line, status bits on but signals off.
pub open spec fn initialize_ops(id: SdioId, config: Config) -> Seq<SdioOp> {
    as_slcr_ops(slcr::unlocked_one(SlcrOp::EnableAmbaClock(AmbaClock::Sdio(id)))) + as_slcr_ops(
        slcr::reset_pulse(
            SlcrOp::WriteSdioReset(reset_lines(id)),
            RESET_CYCLES,
            SlcrOp::WriteSdioReset(no_reset_lines()),
        ),
    ) + seq![
        SdioOp::ModifyClock(ClockUpdate::SoftwareResetForAll),
        SdioOp::WaitResetDone,
    ] + clock_ops(id, config) + seq![
        SdioOp::ModifyClock(ClockUpdate::InternalClockEnable),
        SdioOp::WaitInternalClockStable,
        SdioOp::ModifyHost(HostUpdate::PowerUp),
        SdioOp::ModifyClock(ClockUpdate::DataTimeoutCounter(DATA_TIMEOUT)),
        SdioOp::ModifyBlockParams { block_size: BLOCK_LEN as u16, block_count: None },
        SdioOp::EnableAllStatusButCard,
        SdioOp::WriteSignalEnable(no_status()),
        SdioOp::AckAllStatus,
        SdioOp::ModifyClock(ClockUpdate::SdClockEnable(true)),
    ]
}

pub open spec fn pin_ops(pin: u8, io_type: IoType) -> Seq<GpioOp> {
    gpio::periph_ops(pin as int, sdio_mux(), Some(false), Some(io_type))
}

fn configure_peripheral_pin(pin: AnyPin, io_type: IoType) -> (ops: Vec<GpioOp>)
    requires
        pin.offset < gpio::MIO_COUNT,
    ensures
        ops@ == pin_ops(pin.offset, io_type),
{
    let offset: usize = pin.offset() as usize;
    let ll = LowLevelGpio::new(PinOffset::Mio(offset));
    ll.configure_as_io_periph_pin(mux_conf(), Some(false), Some(io_type))
}

/// The byte at big-endian position `k` of `word`.
pub open spec fn be_byte(word: u32, k: int) -> u8 {
    (if k == 0 {
        word / 0x100_0000
    } else if k == 1 {
        (word / 0x1_0000) % 0x100
    } else if k == 2 {
        (word / 0x100) % 0x100
    } else {
        word % 0x100
    }) as u8
}

/// Byte `i` of a long response. The controller drops the checksum byte, so the
/// fifteen bytes it keeps move up by one and a zero takes the last place.
pub open spec fn long_response_byte(responses: Seq<u32>, i: int) -> u8 {
    if i == 15 {
        0
    } else {
        be_byte(responses[3 - (i + 1) / 4], (i + 1) % 4)
    }
}

fn byte_of(word: u32, k: usize) -> (r: u8)
    requires
        k < 4,
    ensures
        r == be_byte(word, k as int),
{
    if k == 0 {
        (word / 0x100_0000) as u8
    } else if k == 1 {
        ((word / 0x1_0000) % 0x100) as u8
    } else if k == 2 {
        ((word / 0x100) % 0x100) as u8
    } else {
        (word % 0x100) as u8
    }
}

/// Assembles a long response from the four response registers.
pub fn read_u128_response(responses: &[u32; 4]) -> (bytes: [u8; 16])
    ensures
        forall|i: int| 0 <= i < 16 ==> #[trigger] bytes@[i] == long_response_byte(responses@, i),
{
    let mut bytes: [u8; 16] = [0;16];
    let mut i: usize = 0;
    while i < 15
        invariant
            i <= 15,
            bytes@.len() == 16,
            forall|j: int|
                0 <= j < i ==> #[trigger] bytes@[j] == long_response_byte(responses@, j),
            bytes@[15] == 0,
        decreases 15 - i,
    {
        let word: u32 = responses[3 - (i + 1) / 4];
        bytes[i] = byte_of(word, (i + 1) % 4);
        i += 1;
    }
    bytes
}

/// Why a buffer does not fit the announced blocks, if it does not.
pub open spec fn block_layout_ok(len: int, blocks: int, block_len: int) -> bool {
    len == blocks * block_len
}

/// The bytes make up whole blocks.
pub open spec fn whole_blocks(len: int, block_len: int) -> bool {
    if block_len == 0 {
        len == 0
    } else {
        len % block_len == 0
    }
}

proof fn lemma_block_layout_is_whole_blocks(len: int, blocks: int, block_len: int)
    requires
        block_len >= 0,
    ensures
        block_layout_ok(len, blocks, block_len) ==> whole_blocks(len, block_len),
{
    if block_layout_ok(len, blocks, block_len) {
        if block_len == 0 {
            assert(blocks * block_len == 0) by (nonlinear_arith)
                requires
                    block_len == 0,
            ;
        } else {
            vstd::arithmetic::div_mod::lemma_mod_multiples_basic(blocks, block_len);
        }
    }
}

/// The transfer gets as far as filling the descriptor table.
pub open spec fn fills_table(ready: bool, len: int, blocks: int, block_len: int) -> bool {
    &&& block_layout_ok(len, blocks, block_len)
    &&& len == 0 || ready
    &&& blocks <= u16::MAX
    &&& len <= adma::MAX_TRANSFER_BYTES
}

/// The descriptor table setup of a prepared transfer. The table itself is made
/// visible to the controller, which needs cache maintenance in any case.
pub open spec fn adma_ops(ready: bool, len: int, table_addr: u32) -> (Seq<SdioOp>, Result<
    (),
    Error,
>) {
    if len > adma::MAX_TRANSFER_BYTES {
        (Seq::empty(), Err(Error::TransferTooLarge))
    } else if !ready {
        (Seq::empty(), Err(Error::CacheUnavailable))
    } else {
        (
            as_sdio_ops(
                cache::clean_sequence(
                    dma::range_start(table_addr as usize, adma::TABLE_BYTES),
                    dma::range_len(table_addr as usize, adma::TABLE_BYTES),
                ),
            ) + seq![SdioOp::WriteAdmaSystemAddress(table_addr)],
            Ok(()),
        )
    }
}

/// Block setup followed by the descriptor table.
pub open spec fn blocks_and_adma(
    ready: bool,
    len: int,
    blocks: int,
    block_len: int,
    table_addr: u32,
) -> (Seq<SdioOp>, Result<(), Error>) {
    if blocks > u16::MAX {
        (Seq::empty(), Err(Error::TooManyBlocks))
    } else {
        let (ops, result) = adma_ops(ready, len, table_addr);
        (
            seq![
                SdioOp::ModifyBlockParams {
                    block_size: block_len as u16,
                    block_count: Some(blocks as u16),
                },
            ] + ops,
            result,
        )
    }
}

/// A prepared transfer: a buffer that does not fit the blocks is refused first,
/// then the buffer is maintained by `buffer_ops` unless it is empty, then blocks
/// and descriptors are set up. Accesses before a failure have been made.
pub open spec fn prepared_transfer(
    ready: bool,
    buffer_ops: Seq<CacheOp>,
    len: int,
    blocks: int,
    block_len: int,
    table_addr: u32,
) -> (Seq<SdioOp>, Result<(), Error>) {
    if !block_layout_ok(len, blocks, block_len) {
        (Seq::empty(), Err(Error::InvalidBlockSize))
    } else if len != 0 && !ready {
        (Seq::empty(), Err(Error::CacheUnavailable))
    } else {
        let maintenance = if len == 0 {
            Seq::empty()
        } else {
            as_sdio_ops(buffer_ops)
        };
        let (ops, result) = blocks_and_adma(ready, len, blocks, block_len, table_addr);
        (maintenance + ops, result)
    }
}

/// Issuing a command: stale status is cleared before the command is written.
pub open spec fn issue_ops(command: Command, arg: u32) -> Seq<SdioOp> {
    seq![
        SdioOp::AckAllStatus,
        SdioOp::WriteArgument(arg),
        SdioOp::WriteCommand(command.encoding()),
    ]
}

/// Moving to the transfer clock, which stops meanwhile.
pub open spec fn transfer_clock_ops(config: Config) -> Seq<SdioOp> {
    seq![
        SdioOp::ModifyClock(ClockUpdate::SdClockEnable(false)),
        SdioOp::ModifyClock(
            ClockUpdate::SdclkFrequencySelect(config.sdio_clock_divisors.divisor_normal),
        ),
        SdioOp::ModifyClock(ClockUpdate::SdClockEnable(true)),
    ]
}

/// SD host controller driver.
#[derive(Debug, Clone, Copy)]
pub struct Sdmmc {
    pub id: SdioId,
    pub bus_mode: BusMode,
    pub config: Config,
    pub adma_table: Adma2DescriptorTable,
}

/// A new driver with the accesses that set its pins and controller up.
#[derive(Debug)]
pub struct SdmmcSetup {
    pub driver: Sdmmc,
    pub pin_ops: Vec<GpioOp>,
    pub ops: Vec<SdioOp>,
}

impl Sdmmc {
    /// A driver on one data line. The pins have to be a legal route of the controller.
    pub fn new_1bit(
        id: SdioId,
        clk: AnyPin,
        cmd: AnyPin,
        d0: AnyPin,
        config: Config,
    ) -> (r: SdmmcSetup)
        requires
            clk.offset < gpio::MIO_COUNT,
            cmd.offset < gpio::MIO_COUNT,
            d0.offset < gpio::MIO_COUNT,
        ensures
            r.driver.id == id,
            r.driver.bus_mode is OneBit,
            r.driver.config == config,
            forall|i: int|
                0 <= i < adma::ADMA2_DESCRIPTOR_COUNT ==> #[trigger] r.driver.adma_table@[i]
                    == adma::unused(),
            r.pin_ops@ == pin_ops(clk.offset, config.io_type) + pin_ops(cmd.offset, config.io_type)
                + pin_ops(d0.offset, config.io_type),
            r.ops@ == initialize_ops(id, config),
    {
        let mut ops = configure_peripheral_pin(clk, config.io_type);
        let mut cmd_ops = configure_peripheral_pin(cmd, config.io_type);
        let mut d0_ops = configure_peripheral_pin(d0, config.io_type);
        ops.append(&mut cmd_ops);
        ops.append(&mut d0_ops);
        Self::new_inner(id, config, BusMode::OneBit, ops)
    }

    /// A driver on four data lines. The pins have to be a legal route of the controller.
    pub fn new_4bit(id: SdioId, pins: BusPins, config: Config) -> (r: SdmmcSetup)
        requires
            pins.clk < gpio::MIO_COUNT,
            pins.cmd < gpio::MIO_COUNT,
            pins.d0 < gpio::MIO_COUNT,
            pins.d1 < gpio::MIO_COUNT,
            pins.d2 < gpio::MIO_COUNT,
            pins.d3 < gpio::MIO_COUNT,
        ensures
            r.driver.id == id,
            r.driver.bus_mode is FourBit,
            r.driver.config == config,
            forall|i: int|
                0 <= i < adma::ADMA2_DESCRIPTOR_COUNT ==> #[trigger] r.driver.adma_table@[i]
                    == adma::unused(),
            r.pin_ops@ == pin_ops(pins.clk, config.io_type) + pin_ops(pins.cmd, config.io_type)
                + pin_ops(pins.d0, config.io_type) + pin_ops(pins.d1, config.io_type) + pin_ops(
                pins.d2,
                config.io_type,
            ) + pin_ops(pins.d3, config.io_type),
            r.ops@ == initialize_ops(id, config),
    {
        let mut ops = configure_peripheral_pin(AnyPin::new(pins.clk), config.io_type);
        let mut cmd_ops = configure_peripheral_pin(AnyPin::new(pins.cmd), config.io_type);
        let mut d0_ops = configure_peripheral_pin(AnyPin::new(pins.d0), config.io_type);
        let mut d1_ops = configure_peripheral_pin(AnyPin::new(pins.d1), config.io_type);
        let mut d2_ops = configure_peripheral_pin(AnyPin::new(pins.d2), config.io_type);
        let mut d3_ops = configure_peripheral_pin(AnyPin::new(pins.d3), config.io_type);
        ops.append(&mut cmd_ops);
        ops.append(&mut d0_ops);
        ops.append(&mut d1_ops);
        ops.append(&mut d2_ops);
        ops.append(&mut d3_ops);
        Self::new_inner(id, config, BusMode::FourBit, ops)
    }

    fn new_inner(id: SdioId, config: Config, bus_mode: BusMode, pin_ops: Vec<GpioOp>) -> (r:
        SdmmcSetup)
        ensures
            r.driver.id == id,
            r.driver.bus_mode == bus_mode,
            r.driver.config == config,
            forall|i: int|
                0 <= i < adma::ADMA2_DESCRIPTOR_COUNT ==> #[trigger] r.driver.adma_table@[i]
                    == adma::unused(),
            r.pin_ops@ == pin_ops@,
            r.ops@ == initialize_ops(id, config),
    {
        let driver = Sdmmc { id, bus_mode, config, adma_table: Adma2DescriptorTable::new() };
        let ops = driver.initialize();
        SdmmcSetup { driver, pin_ops, ops }
    }

    pub fn bus_mode(&self) -> (r: BusMode)
        ensures
            r == self.bus_mode,
    {
        self.bus_mode
    }

    pub fn config(&self) -> (r: Config)
        ensures
            r == self.config,
    {
        self.config
    }

    pub fn initialize(&self) -> (ops: Vec<SdioOp>)
        ensures
            ops@ == initialize_ops(self.id, self.config),
    {
        let mut ops: Vec<SdioOp> = Vec::new();
        push_slcr_ops(&mut ops, &enable_amba_peripheral_clock(self.id));
        push_slcr_ops(&mut ops, &reset(self.id, RESET_CYCLES));
        ops.push(SdioOp::ModifyClock(ClockUpdate::SoftwareResetForAll));
        ops.push(SdioOp::WaitResetDone);
        self.configure_clock(&mut ops);
        ops.push(SdioOp::ModifyClock(ClockUpdate::InternalClockEnable));
        ops.push(SdioOp::WaitInternalClockStable);
        ops.push(SdioOp::ModifyHost(HostUpdate::PowerUp));
        ops.push(SdioOp::ModifyClock(ClockUpdate::DataTimeoutCounter(DATA_TIMEOUT)));
        ops.push(SdioOp::ModifyBlockParams { block_size: BLOCK_LEN as u16, block_count: None });
        ops.push(SdioOp::EnableAllStatusButCard);
        ops.push(SdioOp::WriteSignalEnable(InterruptStatus::zero()));
        ops.push(SdioOp::AckAllStatus);
        ops.push(SdioOp::ModifyClock(ClockUpdate::SdClockEnable(true)));
        assert(ops@ =~= initialize_ops(self.id, self.config));
        ops
    }

    pub fn configure_clock(&self, ops: &mut Vec<SdioOp>)
        ensures
            final(ops)@ == old(ops)@ + clock_ops(self.id, self.config),
    {
        let ghost before = ops@;
        push_slcr_ops(
            ops,
            &slcr::with_unlocked_one(
                SlcrOp::ModifySdioClock {
                    src_sel: self.config.src_sel,
                    divisor: self.config.ref_clock_divisor,
                    activate: self.id,
                },
            ),
        );
        ops.push(
            SdioOp::ModifyClock(
                ClockUpdate::SdclkFrequencySelect(
                    self.config.sdio_clock_divisors.divisor_init_phase,
                ),
            ),
        );
        assert(ops@ =~= before + clock_ops(self.id, self.config));
    }

    /// Issues a command: stale status is cleared before the command is written.
    pub fn write_command(&self, command: Command, arg: u32) -> (ops: Vec<SdioOp>)
        ensures
            ops@ == issue_ops(command, arg),
    {
        let mut ops: Vec<SdioOp> = Vec::new();
        ops.push(SdioOp::AckAllStatus);
        ops.push(SdioOp::WriteArgument(arg));
        ops.push(SdioOp::WriteCommand(command.register()));
        ops
    }

    /// What a finished command gives its sender.
    pub fn command_result(&self, status: StatusWrapper) -> (r: Result<StatusWrapper, Error>)
        ensures
            r == if status.response_failed() {
                Err::<StatusWrapper, Error>(Error::ResponseError(status.response_error_bits()))
            } else {
                Ok(status)
            },
    {
        if status.has_response_errors() {
            return Err(Error::ResponseError(status.response_errors()));
        }
        Ok(status)
    }

    /// One poll of a waiting command. The waker is registered before the status is read.
    pub fn wait_for_command_complete(&self, status: InterruptStatus) -> (r: CommandPoll)
        ensures
            match r {
                CommandPoll::Ready(ops, s) => {
                    &&& status.command_over()
                    &&& s == StatusWrapper(status)
                    &&& ops@ == seq![
                        SdioOp::WriteSignalEnable(no_status()),
                        SdioOp::AckStatus(status),
                    ]
                },
                CommandPoll::Pending(ops) => {
                    &&& !status.command_over()
                    &&& ops@ == seq![SdioOp::WriteSignalEnable(command_signals())]
                },
            },
    {
        let mut ops: Vec<SdioOp> = Vec::new();
        if status.command_complete || status.error_interrupt {
            ops.push(SdioOp::WriteSignalEnable(InterruptStatus::zero()));
            ops.push(SdioOp::AckStatus(status));
            return CommandPoll::Ready(ops, StatusWrapper(status));
        }
        ops.push(SdioOp::WriteSignalEnable(Self::wait_signal_mask_command()));
        CommandPoll::Pending(ops)
    }

    pub fn wait_signal_mask_command() -> (r: InterruptStatus)
        ensures
            r == command_signals(),
    {
        InterruptStatus {
            command_complete: true,
            command_timeout_error: true,
            command_crc_error: true,
            command_end_bit_error: true,
            command_index_error: true,
            ..InterruptStatus::zero()
        }
    }

    pub fn wait_signal_mask_transfer() -> (r: InterruptStatus)
        ensures
            r == transfer_signals(),
    {
        InterruptStatus {
            transfer_complete: true,
            dma_interrupt: true,
            data_timeout_error: true,
            data_crc_error: true,
            data_end_bit_error: true,
            adma_error: true,
            auto_cmd12_error: true,
            target_response_error: true,
            current_limit_error: true,
            ceata_error_status: true,
            ..InterruptStatus::zero()
        }
    }

    /// One poll of a waiting data transfer. The waker is registered before the status is read.
    ///
    /// A DMA failure takes precedence over a data failure, and a data failure
    /// over every other one.
    pub fn wait_for_transfer_complete(&self, status: InterruptStatus) -> (r: TransferPoll)
        ensures
            match r {
                TransferPoll::Pending(ops) => {
                    &&& !status.transfer_over()
                    &&& ops@ == dma_ack_ops(status) + seq![
                        SdioOp::WriteSignalEnable(transfer_signals()),
                    ]
                },
                TransferPoll::AdmaFailed(ops) => {
                    &&& status.adma_error
                    &&& ops@ == transfer_ack_ops(status)
                },
                TransferPoll::Ready(ops, result) => {
                    &&& status.transfer_over()
                    &&& !status.adma_error
                    &&& ops@ == transfer_ack_ops(status)
                    &&& result == if status.data_error() {
                        Err::<(), Error>(Error::DataError(StatusWrapper(status).data_error_bits()))
                    } else if status.other_error() {
                        Err(Error::UnexpectedResponse)
                    } else {
                        Ok(())
                    }
                },
            },
    {
        let mut ops: Vec<SdioOp> = Vec::new();
        if status.dma_interrupt {
            let dma_only = InterruptStatus { dma_interrupt: true, ..InterruptStatus::zero() };
            ops.push(SdioOp::AckStatus(dma_only));
        }
        assert(ops@ =~= dma_ack_ops(status));
        if status.transfer_complete || status.adma_error || status.error_interrupt
            || status.auto_cmd12_error || status.target_response_error
            || status.current_limit_error || status.ceata_error_status {
            ops.push(SdioOp::WriteSignalEnable(InterruptStatus::zero()));
            ops.push(SdioOp::AckStatus(status));
            assert(ops@ =~= transfer_ack_ops(status));
            if status.adma_error {
                return TransferPoll::AdmaFailed(ops);
            }
            if status.data_timeout_error || status.data_crc_error || status.data_end_bit_error {
                return TransferPoll::Ready(
                    ops,
                    Err(Error::DataError(StatusWrapper(status).data_errors())),
                );
            }
            if status.auto_cmd12_error || status.target_response_error
                || status.current_limit_error || status.ceata_error_status {
                return TransferPoll::Ready(ops, Err(Error::UnexpectedResponse));
            }
            return TransferPoll::Ready(ops, Ok(()));
        }
        ops.push(SdioOp::WriteSignalEnable(Self::wait_signal_mask_transfer()));
        assert(ops@ =~= dma_ack_ops(status) + seq![
            SdioOp::WriteSignalEnable(transfer_signals()),
        ]);
        TransferPoll::Pending(ops)
    }

    /// The failure of a transfer whose DMA engine stopped, and the access that clears it.
    pub fn adma_failure(&self, adma_status: AdmaErrorStatus) -> (r: (SdioOp, Error))
        ensures
            r.0 is ClearAdmaError,
            r.1 == Error::AdmaError(
                AdmaErrorBits {
                    length_mismatch: adma_status.length_mismatch_error,
                    state: adma_status.error_state,
                },
            ),
    {
        (SdioOp::ClearAdmaError, Error::AdmaError(AdmaErrorBits::from(adma_status)))
    }

    /// Sets the data line count that card and controller agreed on.
    pub fn set_card_bus_width(&self, bus_mode: BusMode) -> (op: SdioOp)
        ensures
            op == SdioOp::ModifyHost(
                HostUpdate::BusWidth { mode: bus_mode, high_speed: self.config.high_speed },
            ),
    {
        SdioOp::ModifyHost(
            HostUpdate::BusWidth { mode: bus_mode, high_speed: self.config.high_speed },
        )
    }

    /// Moves from the identification to the transfer clock, which stops meanwhile.
    pub fn switch_to_normal_transfer_clock(&self) -> (ops: Vec<SdioOp>)
        ensures
            ops@ == transfer_clock_ops(self.config),
    {
        let mut ops: Vec<SdioOp> = Vec::new();
        ops.push(SdioOp::ModifyClock(ClockUpdate::SdClockEnable(false)));
        ops.push(
            SdioOp::ModifyClock(
                ClockUpdate::SdclkFrequencySelect(self.config.sdio_clock_divisors.divisor_normal),
            ),
        );
        ops.push(SdioOp::ModifyClock(ClockUpdate::SdClockEnable(true)));
        ops
    }

    /// Prepares reading `blocks` blocks into the buffer of `len` bytes at `addr`.
    ///
    /// `table_addr` is where the descriptor table of the driver lies.
    pub fn prepare_read_transfer(
        &mut self,
        ready: bool,
        addr: u32,
        len: usize,
        blocks: usize,
        block_len: usize,
        table_addr: u32,
    ) -> (r: Prepared)
        requires
            whole_blocks(len as int, block_len as int) ==> blocks * block_len <= usize::MAX,
            block_layout_ok(len as int, blocks as int, block_len as int) ==> {
                &&& dma::addressable(addr as int, len as int)
                &&& blocks <= u16::MAX ==> block_len < 4096
            },
            dma::addressable(table_addr as int, adma::TABLE_BYTES as int),
        ensures
            (r.ops@, r.result) == prepared_transfer(
                ready,
                cache::clean_invalidate_sequence(
                    dma::range_start(addr as usize, len),
                    dma::range_len(addr as usize, len),
                ),
                len as int,
                blocks as int,
                block_len as int,
                table_addr,
            ),
            if fills_table(ready, len as int, blocks as int, block_len as int) {
                final(self).adma_table.describes(addr, len as int)
            } else {
                final(self).adma_table == old(self).adma_table
            },
            final(self).id == old(self).id,
            final(self).bus_mode == old(self).bus_mode,
            final(self).config == old(self).config,
    {
        let mut ops: Vec<SdioOp> = Vec::new();
        proof {
            lemma_block_layout_is_whole_blocks(len as int, blocks as int, block_len as int);
        }
        let whole: bool = if block_len == 0 {
            len == 0
        } else {
            len % block_len == 0
        };
        if !whole || len != blocks * block_len {
            return Prepared { ops, result: Err(Error::InvalidBlockSize) };
        }
        match dma::prepare_slice_for_device_write(ready, addr as usize, len) {
            Ok(maintenance) => push_cache_ops(&mut ops, &maintenance),
            Err(e) => return Prepared { ops, result: Err(Error::from(e)) },
        }
        let ghost maintenance = ops@;
        let mut rest = self.configure_blocks_and_adma(
            ready,
            addr,
            len,
            blocks,
            block_len,
            table_addr,
        );
        ops.append(&mut rest.ops);
        assert(as_sdio_ops(Seq::<CacheOp>::empty()) =~= Seq::<SdioOp>::empty());
        Prepared { ops, result: rest.result }
    }

    /// Prepares writing `blocks` blocks from the buffer of `len` bytes at `addr`.
    pub fn prepare_write_transfer(
        &mut self,
        ready: bool,
        addr: u32,
        len: usize,
        blocks: usize,
        table_addr: u32,
    ) -> (r: Prepared)
        requires
            len % BLOCK_LEN == 0 ==> blocks * BLOCK_LEN <= usize::MAX,
            block_layout_ok(len as int, blocks as int, BLOCK_LEN as int) ==> dma::addressable(
                addr as int,
                len as int,
            ),
            dma::addressable(table_addr as int, adma::TABLE_BYTES as int),
        ensures
            (r.ops@, r.result) == prepared_transfer(
                ready,
                cache::clean_sequence(
                    dma::range_start(addr as usize, len),
                    dma::range_len(addr as usize, len),
                ),
                len as int,
                blocks as int,
                BLOCK_LEN as int,
                table_addr,
            ),
            if fills_table(ready, len as int, blocks as int, BLOCK_LEN as int) {
                final(self).adma_table.describes(addr, len as int)
            } else {
                final(self).adma_table == old(self).adma_table
            },
            final(self).id == old(self).id,
            final(self).bus_mode == old(self).bus_mode,
            final(self).config == old(self).config,
    {
        let mut ops: Vec<SdioOp> = Vec::new();
        proof {
            lemma_block_layout_is_whole_blocks(len as int, blocks as int, BLOCK_LEN as int);
        }
        if len % BLOCK_LEN != 0 || len != blocks * BLOCK_LEN {
            return Prepared { ops, result: Err(Error::InvalidBlockSize) };
        }
        match dma::prepare_slice_for_device_read(ready, addr as usize, len) {
            Ok(maintenance) => push_cache_ops(&mut ops, &maintenance),
            Err(e) => return Prepared { ops, result: Err(Error::from(e)) },
        }
        let mut rest = self.configure_blocks_and_adma(
            ready,
            addr,
            len,
            blocks,
            BLOCK_LEN,
            table_addr,
        );
        ops.append(&mut rest.ops);
        assert(as_sdio_ops(Seq::<CacheOp>::empty()) =~= Seq::<SdioOp>::empty());
        Prepared { ops, result: rest.result }
    }

    fn configure_blocks_and_adma(
        &mut self,
        ready: bool,
        addr: u32,
        len: usize,
        blocks: usize,
        block_len: usize,
        table_addr: u32,
    ) -> (r: Prepared)
        requires
            blocks <= u16::MAX ==> block_len < 4096,
            dma::addressable(addr as int, len as int),
            dma::addressable(table_addr as int, adma::TABLE_BYTES as int),
        ensures
            (r.ops@, r.result) == blocks_and_adma(
                ready,
                len as int,
                blocks as int,
                block_len as int,
                table_addr,
            ),
            if blocks <= u16::MAX && len <= adma::MAX_TRANSFER_BYTES {
                final(self).adma_table.describes(addr, len as int)
            } else {
                final(self).adma_table == old(self).adma_table
            },
            final(self).id == old(self).id,
            final(self).bus_mode == old(self).bus_mode,
            final(self).config == old(self).config,
    {
        let mut ops: Vec<SdioOp> = Vec::new();
        match self.configure_data_blocks(blocks, block_len) {
            Ok(op) => ops.push(op),
            Err(e) => {
                assert(ops@ =~= Seq::<SdioOp>::empty());
                return Prepared { ops, result: Err(e) };
            },
        }
        let mut rest = self.prepare_adma_transfer(ready, addr, len, table_addr);
        let ghost rest_ops = rest.ops@;
        ops.append(&mut rest.ops);
        assert(ops@ =~= seq![
            SdioOp::ModifyBlockParams {
                block_size: block_len as u16,
                block_count: Some(blocks as u16),
            },
        ] + rest_ops);
        Prepared { ops, result: rest.result }
    }

    pub fn configure_data_blocks(&self, blocks: usize, block_len: usize) -> (r: Result<
        SdioOp,
        Error,
    >)
        requires
            blocks <= u16::MAX ==> block_len < 4096,
        ensures
            r == if blocks > u16::MAX {
                Err::<SdioOp, Error>(Error::TooManyBlocks)
            } else {
                Ok(
                    SdioOp::ModifyBlockParams {
                        block_size: block_len as u16,
                        block_count: Some(blocks as u16),
                    },
                )
            },
    {
        if blocks > u16::MAX as usize {
            return Err(Error::TooManyBlocks);
        }
        Ok(
            SdioOp::ModifyBlockParams {
                block_size: block_len as u16,
                block_count: Some(blocks as u16),
            },
        )
    }

    pub fn prepare_adma_transfer(
        &mut self,
        ready: bool,
        buffer_addr: u32,
        len: usize,
        table_addr: u32,
    ) -> (r: Prepared)
        requires
            len <= adma::MAX_TRANSFER_BYTES ==> buffer_addr + len <= u32::MAX + 1,
            dma::addressable(table_addr as int, adma::TABLE_BYTES as int),
        ensures
            (r.ops@, r.result) == adma_ops(ready, len as int, table_addr),
            if len <= adma::MAX_TRANSFER_BYTES {
                final(self).adma_table.describes(buffer_addr, len as int)
            } else {
                final(self).adma_table == old(self).adma_table
            },
            final(self).id == old(self).id,
            final(self).bus_mode == old(self).bus_mode,
            final(self).config == old(self).config,
    {
        let mut ops: Vec<SdioOp> = Vec::new();
        if len > adma::MAX_TRANSFER_BYTES {
            assert(ops@ =~= Seq::<SdioOp>::empty());
            return Prepared { ops, result: Err(Error::TransferTooLarge) };
        }
        self.adma_table.configure(buffer_addr, len);
        match dma::prepare_ref_for_device_read(ready, table_addr as usize, adma::TABLE_BYTES) {
            Ok(maintenance) => push_cache_ops(&mut ops, &maintenance),
            Err(e) => {
                assert(ops@ =~= Seq::<SdioOp>::empty());
                return Prepared { ops, result: Err(Error::from(e)) };
            },
        }
        ops.push(SdioOp::WriteAdmaSystemAddress(table_addr));
        assert(ops@ =~= adma_ops(ready, len as int, table_addr).0);
        Prepared { ops, result: Ok(()) }
    }

    /// Makes the data that the controller read visible in the buffer.
    pub fn complete_read_transfer(&self, ready: bool, addr: u32, len: usize) -> (r: Result<
        Vec<CacheOp>,
        Error,
    >)
        requires
            dma::addressable(addr as int, len as int),
        ensures
            if len != 0 && !ready {
                r == Err::<Vec<CacheOp>, Error>(Error::CacheUnavailable)
            } else {
                r is Ok && r->Ok_0@ == if len == 0 {
                    Seq::empty()
                } else {
                    cache::invalidate_sequence(
                        dma::range_start(addr as usize, len),
                        dma::range_len(addr as usize, len),
                    )
                }
            },
    {
        match dma::complete_slice_from_device_write(ready, addr as usize, len) {
            Ok(ops) => Ok(ops),
            Err(e) => Err(Error::from(e)),
        }
    }
}

/// A prepared transfer never hands the controller a descriptor table that it
/// could read stale: the table is cleaned right before its address is written.
pub proof fn table_is_cleaned_before_use(
    ready: bool,
    buffer_ops: Seq<CacheOp>,
    len: int,
    blocks: int,
    block_len: int,
    table_addr: u32,
)
    ensures
        ({
            let (ops, result) = prepared_transfer(
                ready,
                buffer_ops,
                len,
                blocks,
                block_len,
                table_addr,
            );
            result is Ok ==> {
                &&& ready
                &&& ops.last() == SdioOp::WriteAdmaSystemAddress(table_addr)
                &&& len <= adma::MAX_TRANSFER_BYTES
                &&& blocks <= u16::MAX
                &&& len == blocks * block_len
            }
        }),
{
}

/// The data of a batch fits one descriptor table, and no larger batch would.
pub proof fn batch_fits_one_table(blocks: int)
    requires
        0 <= blocks <= MAX_DMA_BLOCKS_PER_BATCH,
    ensures
        blocks * BLOCK_LEN <= adma::MAX_TRANSFER_BYTES,
        blocks <= u16::MAX,
        MAX_DMA_BLOCKS_PER_BATCH == MAX_DATA_TRANSFER_BYTES / BLOCK_LEN,
{
}

} // verus!
