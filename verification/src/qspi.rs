//! Quad-SPI flash controller.
//!
//! The flash is read through the linear address window. Erasing and writing go
//! through single commands in I/O mode; [`FlashOperation`] is their sequence as a
//! state machine that is fed with the replies of the flash.
use vstd::prelude::*;

use crate::arith;
use crate::chip::{self, QspiSignal};
use crate::clocks::SrcSelIo;
use crate::gpio::{self, GpioOp, IoType, LowLevelGpio, MuxConfig, PinOffset};
use crate::slcr::{self, AmbaClock, QspiReset, SlcrOp};
use crate::Hertz;

pub mod laws;

verus! {

/// Words that a FIFO holds.
pub const FIFO_DEPTH: usize = 63;

pub const MAX_BYTES_PER_TRANSFER_IO_MODE: usize = FIFO_DEPTH * 4;

/// Where the linear address window starts.
pub const QSPI_START_ADDRESS: usize = 0xFC00_0000;

/// Polls after which a command or a busy flash counts as stuck.
pub const COMMAND_WAIT_LIMIT: usize = 1_000_000;

/// Processor cycles for which the controller is held in reset.
pub const RESET_CYCLES: u32 = 10;

/// Largest reference clock divisor: six bits.
pub const REF_CLOCK_DIVISOR_MAX: u32 = 63;

#[derive(Debug, Clone, Copy, PartialEq, Eq, Structural)]
pub enum ClockCalculationError {
    ZeroTargetClock,
    RefDivOutOfRange,
}

#[derive(Debug, Clone, Copy, PartialEq, Eq, Structural)]
pub enum BaudRateDivisor {
    Div2,
    Div4,
    Div8,
    Div16,
    Div32,
    Div64,
    Div128,
    Div256,
}

#[derive(Debug, Clone, Copy, PartialEq, Eq, Structural)]
pub enum BaudRateConfig {
    /// The clock is looped back, which fixes the divisor.
    WithLoopback,
    WithoutLoopback(BaudRateDivisor),
}

impl BaudRateConfig {
    pub open spec fn divisor(self) -> BaudRateDivisor {
        match self {
            BaudRateConfig::WithLoopback => BaudRateDivisor::Div2,
            BaudRateConfig::WithoutLoopback(divisor) => divisor,
        }
    }

    pub fn baud_rate_divisor(&self) -> (r: BaudRateDivisor)
        ensures
            r == self.divisor(),
    {
        match self {
            BaudRateConfig::WithLoopback => BaudRateDivisor::Div2,
            BaudRateConfig::WithoutLoopback(divisor) => *divisor,
        }
    }
}

#[derive(Debug, Clone, Copy, PartialEq, Eq, Structural)]
pub struct ClockConfig {
    pub src_sel: SrcSelIo,
    pub ref_clk_div: u8,
    pub baud_rate_config: BaudRateConfig,
}

impl ClockConfig {
    pub fn new(src_sel: SrcSelIo, ref_clk_div: u8, baud_rate_config: BaudRateConfig) -> (r: Self)
        requires
            ref_clk_div <= REF_CLOCK_DIVISOR_MAX,
        ensures
            r == (ClockConfig { src_sel, ref_clk_div, baud_rate_config }),
    {
        ClockConfig { src_sel, ref_clk_div, baud_rate_config }
    }

    /// The smallest divisor that brings `ref_clk` down to the target.
    pub fn calculate_with_ref_clk(
        ref_clk: Hertz,
        src_sel: SrcSelIo,
        target_qspi_ref_clock: Hertz,
        baud_rate_config: BaudRateConfig,
    ) -> (r: Result<Self, ClockCalculationError>)
        ensures
            r == if target_qspi_ref_clock.hz == 0 {
                Err::<ClockConfig, ClockCalculationError>(ClockCalculationError::ZeroTargetClock)
            } else if arith::ceil_div(ref_clk.hz as int, target_qspi_ref_clock.hz as int)
                > REF_CLOCK_DIVISOR_MAX {
                Err(ClockCalculationError::RefDivOutOfRange)
            } else {
                Ok(
                    ClockConfig {
                        src_sel,
                        ref_clk_div: arith::ceil_div(
                            ref_clk.hz as int,
                            target_qspi_ref_clock.hz as int,
                        ) as u8,
                        baud_rate_config,
                    },
                )
            },
    {
        if target_qspi_ref_clock.raw() == 0 {
            return Err(ClockCalculationError::ZeroTargetClock);
        }
        let ref_clk_div: u32 = arith::div_ceil_u32(ref_clk.raw(), target_qspi_ref_clock.raw());
        if ref_clk_div > REF_CLOCK_DIVISOR_MAX {
            return Err(ClockCalculationError::RefDivOutOfRange);
        }
        Ok(ClockConfig { src_sel, ref_clk_div: ref_clk_div as u8, baud_rate_config })
    }
}

#[derive(Debug, Clone, Copy, PartialEq, Eq, Structural)]
pub enum AddressWidth {
    Bits24,
    Bits32,
}

impl AddressWidth {
    /// The words that opcode and address take.
    pub open spec fn words(self) -> int {
        match self {
            AddressWidth::Bits24 => 1,
            AddressWidth::Bits32 => 2,
        }
    }

    pub fn command_words(self) -> (r: usize)
        ensures
            r == self.words(),
    {
        match self {
            AddressWidth::Bits24 => 1,
            AddressWidth::Bits32 => 2,
        }
    }
}

#[derive(Debug, Clone, Copy, PartialEq, Eq, Structural)]
pub enum QspiVendor {
    WinbondAndSpansion,
    Micron,
}

/// Read instructions of the linear mode.
#[derive(Debug, Clone, Copy, PartialEq, Eq, Structural)]
pub enum InstructionCode {
    Read,
    FastRead,
    FastReadDualOutput,
    FastReadQuadOutput,
    FastReadDualIo,
    FastReadQuadIo,
}

pub type OperatingMode = InstructionCode;

#[derive(Debug, Clone, Copy, PartialEq, Eq, Structural)]
pub struct QspiDeviceCombination {
    pub vendor: QspiVendor,
    pub operating_mode: OperatingMode,
    pub two_devices: bool,
}

/// Fields of the linear configuration register.
#[derive(Debug, Clone, Copy, PartialEq, Eq, Structural)]
pub struct LinearQspiConfig {
    pub enable_linear_mode: bool,
    pub both_memories: bool,
    pub separate_memory_bus: bool,
    pub upper_memory_page: bool,
    pub mode_enable: bool,
    pub mode_on: bool,
    pub mode_bits: u8,
    pub num_dummy_bytes: u8,
    pub instruction_code: InstructionCode,
}

/// A register setting for one device and for two devices in parallel.
#[derive(Debug, Clone, Copy, PartialEq, Eq, Structural)]
pub struct DeviceConfigs {
    pub one: LinearQspiConfig,
    pub two: LinearQspiConfig,
}

/// Settings of the instructions whose dummy cycles differ between vendors.
#[derive(Debug, Clone, Copy, PartialEq, Eq, Structural)]
pub struct VendorConfigs {
    pub dual_io_fast_rd: DeviceConfigs,
    pub quad_io_fast_rd: DeviceConfigs,
}

/// The register settings of the common flash devices.
#[derive(Debug, Clone, Copy, PartialEq, Eq, Structural)]
pub struct LinearConfigTable {
    pub rd: DeviceConfigs,
    pub fast_rd: DeviceConfigs,
    pub dual_out_fast_rd: DeviceConfigs,
    pub quad_out_fast_rd: DeviceConfigs,
    pub winbond_spansion: VendorConfigs,
    pub micron: VendorConfigs,
}

impl LinearConfigTable {
    pub open spec fn vendor(self, vendor: QspiVendor) -> VendorConfigs {
        match vendor {
            QspiVendor::WinbondAndSpansion => self.winbond_spansion,
            QspiVendor::Micron => self.micron,
        }
    }

    /// The settings of an instruction. Only the instructions that send the address
    /// on several lines depend on the vendor.
    pub open spec fn instruction(self, vendor: QspiVendor, code: InstructionCode) -> DeviceConfigs {
        match code {
            InstructionCode::Read => self.rd,
            InstructionCode::FastRead => self.fast_rd,
            InstructionCode::FastReadDualOutput => self.dual_out_fast_rd,
            InstructionCode::FastReadQuadOutput => self.quad_out_fast_rd,
            InstructionCode::FastReadDualIo => self.vendor(vendor).dual_io_fast_rd,
            InstructionCode::FastReadQuadIo => self.vendor(vendor).quad_io_fast_rd,
        }
    }

    pub open spec fn selected(self, dev: QspiDeviceCombination) -> LinearQspiConfig {
        let configs = self.instruction(dev.vendor, dev.operating_mode);
        if dev.two_devices {
            configs.two
        } else {
            configs.one
        }
    }
}

/// The linear mode setting for a combination of devices.
pub fn linear_mode_config_for_common_devices(
    table: &LinearConfigTable,
    dev_combination: QspiDeviceCombination,
) -> (r: LinearQspiConfig)
    ensures
        r == table.selected(dev_combination),
{
    match dev_combination.operating_mode {
        InstructionCode::Read => {
            if dev_combination.two_devices {
                table.rd.two
            } else {
                table.rd.one
            }
        },
        InstructionCode::FastRead => {
            if dev_combination.two_devices {
                table.fast_rd.two
            } else {
                table.fast_rd.one
            }
        },
        InstructionCode::FastReadDualOutput => {
            if dev_combination.two_devices {
                table.dual_out_fast_rd.two
            } else {
                table.dual_out_fast_rd.one
            }
        },
        InstructionCode::FastReadQuadOutput => {
            if dev_combination.two_devices {
                table.quad_out_fast_rd.two
            } else {
                table.quad_out_fast_rd.one
            }
        },
        InstructionCode::FastReadDualIo => match (
            dev_combination.vendor,
            dev_combination.two_devices,
        ) {
            (QspiVendor::WinbondAndSpansion, false) => table.winbond_spansion.dual_io_fast_rd.one,
            (QspiVendor::WinbondAndSpansion, true) => table.winbond_spansion.dual_io_fast_rd.two,
            (QspiVendor::Micron, false) => table.micron.dual_io_fast_rd.one,
            (QspiVendor::Micron, true) => table.micron.dual_io_fast_rd.two,
        },
        InstructionCode::FastReadQuadIo => match (
            dev_combination.vendor,
            dev_combination.two_devices,
        ) {
            (QspiVendor::WinbondAndSpansion, false) => table.winbond_spansion.quad_io_fast_rd.one,
            (QspiVendor::WinbondAndSpansion, true) => table.winbond_spansion.quad_io_fast_rd.two,
            (QspiVendor::Micron, false) => table.micron.quad_io_fast_rd.one,
            (QspiVendor::Micron, true) => table.micron.quad_io_fast_rd.two,
        },
    }
}

/// The four combinations of clock polarity and phase.
#[derive(Debug, Clone, Copy, PartialEq, Eq, Structural)]
pub enum SpiMode {
    Mode0,
    Mode1,
    Mode2,
    Mode3,
}

#[derive(Debug, Clone, Copy, PartialEq, Eq, Structural)]
pub enum SpiClockPolarity {
    QuiescentLow,
    QuiescentHigh,
}

#[derive(Debug, Clone, Copy, PartialEq, Eq, Structural)]
pub enum SpiClockPhase {
    ActiveOutsideOfWord,
    InactiveOutsideOfWord,
}

impl SpiMode {
    pub open spec fn polarity(self) -> SpiClockPolarity {
        if self is Mode0 || self is Mode1 {
            SpiClockPolarity::QuiescentLow
        } else {
            SpiClockPolarity::QuiescentHigh
        }
    }

    pub open spec fn phase(self) -> SpiClockPhase {
        if self is Mode0 || self is Mode2 {
            SpiClockPhase::ActiveOutsideOfWord
        } else {
            SpiClockPhase::InactiveOutsideOfWord
        }
    }
}

pub fn spi_mode_const_to_cpol_cpha(mode: SpiMode) -> (r: (SpiClockPolarity, SpiClockPhase))
    ensures
        r == (mode.polarity(), mode.phase()),
{
    match mode {
        SpiMode::Mode0 => (SpiClockPolarity::QuiescentLow, SpiClockPhase::ActiveOutsideOfWord),
        SpiMode::Mode1 => (SpiClockPolarity::QuiescentLow, SpiClockPhase::InactiveOutsideOfWord),
        SpiMode::Mode2 => (SpiClockPolarity::QuiescentHigh, SpiClockPhase::ActiveOutsideOfWord),
        SpiMode::Mode3 => (SpiClockPolarity::QuiescentHigh, SpiClockPhase::InactiveOutsideOfWord),
    }
}

#[derive(Debug, Clone, Copy, PartialEq, Eq, Structural)]
pub struct Config {
    pub clock_config: ClockConfig,
    pub mode: SpiMode,
    pub voltage: IoType,
    pub linear_config: LinearQspiConfig,
    pub page_size: usize,
    pub capacity: usize,
    pub erase_opcode: u8,
    pub erase_size: u32,
    pub read_status_opcode: u8,
    pub write_enable_opcode: u8,
    pub clear_status_opcode: Option<u8>,
    pub page_program_opcode: u8,
    pub address_width: AddressWidth,
}

impl Config {
    pub fn spansion_s25fl256s(
        clock_config: ClockConfig,
        voltage: IoType,
        linear_config: LinearQspiConfig,
    ) -> (r: Self)
        ensures
            r == (Config {
                clock_config,
                mode: SpiMode::Mode0,
                voltage,
                linear_config,
                page_size: 256,
                capacity: 0x200_0000,
                erase_opcode: 0xD8,
                erase_size: 0x10000,
                read_status_opcode: 0x05,
                write_enable_opcode: 0x06,
                clear_status_opcode: Some(0x30),
                page_program_opcode: 0x02,
                address_width: AddressWidth::Bits32,
            }),
    {
        Config {
            clock_config,
            mode: SpiMode::Mode0,
            voltage,
            linear_config,
            page_size: 256,
            capacity: 32 * 1024 * 1024,
            erase_opcode: 0xD8,
            erase_size: 0x10000,
            read_status_opcode: 0x05,
            write_enable_opcode: 0x06,
            clear_status_opcode: Some(0x30),
            page_program_opcode: 0x02,
            address_width: AddressWidth::Bits32,
        }
    }
}

#[derive(Debug, Clone, Copy, PartialEq, Eq, Structural)]
pub enum ControllerMode {
    Linear,
    Io,
}

#[derive(Debug, Clone, Copy, PartialEq, Eq, Structural)]
pub enum Error {
    OutOfRange,
    InvalidEraseSize,
    /// The write size is not exactly four bytes.
    InvalidWriteSize,
    UnalignedWrite,
    UnalignedErase,
    PageBoundary,
    WriteEnableFailed,
    BusyTimeout,
    CommandTimeout,
    OperationFailed,
}

/// Kinds of errors that callers tell apart.
#[derive(Debug, Clone, Copy, PartialEq, Eq, Structural)]
pub enum NorFlashErrorKind {
    NotAligned,
    OutOfBounds,
    Other,
}

impl Error {
    pub fn kind(&self) -> (r: NorFlashErrorKind)
        ensures
            r == match *self {
                Error::OutOfRange
                | Error::InvalidEraseSize
                | Error::InvalidWriteSize
                | Error::UnalignedWrite
                | Error::UnalignedErase
                | Error::PageBoundary => NorFlashErrorKind::OutOfBounds,
                _ => NorFlashErrorKind::Other,
            },
    {
        match self {
            Error::OutOfRange
            | Error::InvalidEraseSize
            | Error::InvalidWriteSize
            | Error::UnalignedWrite
            | Error::UnalignedErase
            | Error::PageBoundary => NorFlashErrorKind::OutOfBounds,
            Error::WriteEnableFailed
            | Error::BusyTimeout
            | Error::CommandTimeout
            | Error::OperationFailed => NorFlashErrorKind::Other,
        }
    }
}

/// Only whole words can be programmed.
pub fn validate_write_size<const WRITE_SIZE: usize>() -> (r: Result<(), Error>)
    ensures
        r == if WRITE_SIZE == 4 {
            Ok::<(), Error>(())
        } else {
            Err(Error::InvalidWriteSize)
        },
{
    if WRITE_SIZE == 4 {
        Ok(())
    } else {
        Err(Error::InvalidWriteSize)
    }
}

/// Fields of the configuration register.
#[derive(Debug, Clone, Copy, PartialEq, Eq, Structural)]
pub struct RegisterConfig {
    pub flash_memory_interface: bool,
    pub big_endian: bool,
    pub holdb_dr: bool,
    pub manual_start_command: bool,
    pub manual_start_enable: bool,
    pub manual_cs: bool,
    pub peripheral_chip_select: bool,
    pub fifo_width: u8,
    pub baud_rate_div: BaudRateDivisor,
    pub clock_phase: SpiClockPhase,
    pub clock_polarity: SpiClockPolarity,
    pub mode_select: bool,
}

/// An update of the configuration register.
#[derive(Debug, Clone, Copy, PartialEq, Eq, Structural)]
pub enum ConfigUpdate {
    /// Automatic start and chip select, select asserted by the hardware.
    Linear,
    /// Manual start and chip select.
    Manual,
    PeripheralChipSelect(bool),
    ManualStartCommand,
}

impl ConfigUpdate {
    pub open spec fn applied(self, val: RegisterConfig) -> RegisterConfig {
        match self {
            ConfigUpdate::Linear => RegisterConfig {
                manual_start_enable: false,
                manual_cs: false,
                peripheral_chip_select: false,
                ..val
            },
            ConfigUpdate::Manual => RegisterConfig {
                manual_start_enable: true,
                manual_cs: true,
                ..val
            },
            ConfigUpdate::PeripheralChipSelect(v) => RegisterConfig {
                peripheral_chip_select: v,
                ..val
            },
            ConfigUpdate::ManualStartCommand => RegisterConfig {
                manual_start_command: true,
                ..val
            },
        }
    }

    /// The configuration register after the update.
    pub fn apply(self, val: RegisterConfig) -> (r: RegisterConfig)
        ensures
            r == self.applied(val),
    {
        match self {
            ConfigUpdate::Linear => RegisterConfig {
                manual_start_enable: false,
                manual_cs: false,
                peripheral_chip_select: false,
                ..val
            },
            ConfigUpdate::Manual => RegisterConfig {
                manual_start_enable: true,
                manual_cs: true,
                ..val
            },
            ConfigUpdate::PeripheralChipSelect(v) => RegisterConfig {
                peripheral_chip_select: v,
                ..val
            },
            ConfigUpdate::ManualStartCommand => RegisterConfig {
                manual_start_command: true,
                ..val
            },
        }
    }
}

/// One access to the controller.
#[derive(Debug, Clone, Copy, PartialEq, Eq, Structural)]
pub enum QspiOp {
    Slcr(SlcrOp),
    WriteConfig(RegisterConfig),
    ModifyConfig(ConfigUpdate),
    /// Use the looped back clock without delay.
    UseLoopbackClock,
    WriteSpiEnable(bool),
    WriteLinearConfig(LinearQspiConfig),
    WriteRxFifoThreshold(u32),
    WriteTxFifoThreshold(u32),
    /// Read words until the receive FIFO is below its threshold.
    DrainRx,
    /// Send a word of four bytes.
    WriteTx00(u32),
    /// Send a word of one byte.
    WriteTx01(u32),
    /// Send a word of two bytes.
    WriteTx10(u32),
}

pub open spec fn initial_config(clock_config: ClockConfig, mode: SpiMode) -> RegisterConfig {
    RegisterConfig {
        flash_memory_interface: true,
        big_endian: false,
        holdb_dr: true,
        manual_start_command: false,
        manual_start_enable: false,
        manual_cs: false,
        peripheral_chip_select: false,
        fifo_width: 3,
        baud_rate_div: clock_config.baud_rate_config.divisor(),
        clock_phase: mode.phase(),
        clock_polarity: mode.polarity(),
        mode_select: true,
    }
}

/// The bring-up of the controller: bus clock, reset, reference clock, mode.
pub open spec fn initialize_ops(clock_config: ClockConfig, mode: SpiMode) -> Seq<QspiOp> {
    as_slcr_ops(slcr::unlocked_one(SlcrOp::EnableAmbaClock(AmbaClock::Qspi))) + as_slcr_ops(
        reset_ops(),
    ) + as_slcr_ops(
        slcr::unlocked_one(
            SlcrOp::WriteQspiClock {
                src_sel: clock_config.src_sel,
                divisor: clock_config.ref_clk_div,
            },
        ),
    ) + seq![QspiOp::WriteConfig(initial_config(clock_config, mode))] + (
    if clock_config.baud_rate_config is WithLoopback {
        seq![QspiOp::UseLoopbackClock]
    } else {
        Seq::empty()
    })
}

pub open spec fn reset_ops() -> Seq<SlcrOp> {
    slcr::reset_pulse(
        SlcrOp::WriteQspiReset(QspiReset { qspi_ref_reset: true, cpu_1x_reset: true }),
        RESET_CYCLES,
        SlcrOp::WriteQspiReset(QspiReset { qspi_ref_reset: false, cpu_1x_reset: false }),
    )
}

/// Linear mode is set up while the controller is off.
pub open spec fn linear_mode_ops(config: LinearQspiConfig) -> Seq<QspiOp> {
    seq![
        QspiOp::WriteSpiEnable(false),
        QspiOp::ModifyConfig(ConfigUpdate::Linear),
        QspiOp::WriteLinearConfig(config),
    ]
}

pub open spec fn io_mode_config(dual_flash: bool) -> LinearQspiConfig {
    LinearQspiConfig {
        enable_linear_mode: false,
        both_memories: dual_flash,
        separate_memory_bus: dual_flash,
        upper_memory_page: false,
        mode_enable: false,
        mode_on: true,
        mode_bits: 0xA0,
        num_dummy_bytes: 2,
        instruction_code: InstructionCode::FastReadQuadIo,
    }
}

pub open spec fn io_mode_ops(dual_flash: bool) -> Seq<QspiOp> {
    seq![
        QspiOp::ModifyConfig(ConfigUpdate::Manual),
        QspiOp::WriteRxFifoThreshold(1),
        QspiOp::WriteTxFifoThreshold(1),
        QspiOp::WriteLinearConfig(io_mode_config(dual_flash)),
    ]
}

/// Opening a command: stale replies are dropped, then the flash is selected.
pub open spec fn open_ops() -> Seq<QspiOp> {
    seq![
        QspiOp::DrainRx,
        QspiOp::ModifyConfig(ConfigUpdate::PeripheralChipSelect(false)),
        QspiOp::WriteSpiEnable(true),
    ]
}

/// Closing a command: the flash is released.
pub open spec fn close_ops() -> Seq<QspiOp> {
    seq![
        QspiOp::ModifyConfig(ConfigUpdate::PeripheralChipSelect(true)),
        QspiOp::WriteSpiEnable(false),
    ]
}

pub open spec fn as_slcr_ops(ops: Seq<SlcrOp>) -> Seq<QspiOp> {
    Seq::new(ops.len(), |i: int| QspiOp::Slcr(ops[i]))
}

fn push_slcr_ops(out: &mut Vec<QspiOp>, ops: &Vec<SlcrOp>)
    ensures
        final(out)@ == old(out)@ + as_slcr_ops(ops@),
{
    let ghost before = out@;
    let mut i: usize = 0;
    assert(out@ =~= before + as_slcr_ops(ops@).take(0));
    while i < ops.len()
        invariant
            i <= ops.len(),
            out@ == before + as_slcr_ops(ops@).take(i as int),
        decreases ops.len() - i,
    {
        assert(as_slcr_ops(ops@).take(i + 1) =~= as_slcr_ops(ops@).take(i as int).push(
            QspiOp::Slcr(ops@[i as int]),
        ));
        out.push(QspiOp::Slcr(ops[i]));
        i += 1;
    }
    assert(as_slcr_ops(ops@).take(i as int) =~= as_slcr_ops(ops@));
}

/// Ungates the bus clock of the controller.
pub fn enable_qspi_clock() -> (ops: Vec<SlcrOp>)
    ensures
        ops@ == slcr::unlocked_one(SlcrOp::EnableAmbaClock(AmbaClock::Qspi)),
{
    slcr::with_unlocked_one(SlcrOp::EnableAmbaClock(AmbaClock::Qspi))
}

/// Holds the controller in reset for some processor cycles.
pub fn reset() -> (ops: Vec<SlcrOp>)
    ensures
        ops@ == reset_ops(),
{
    slcr::with_reset_pulse(
        SlcrOp::WriteQspiReset(QspiReset { qspi_ref_reset: true, cpu_1x_reset: true }),
        RESET_CYCLES,
        SlcrOp::WriteQspiReset(QspiReset { qspi_ref_reset: false, cpu_1x_reset: false }),
    )
}

/// Register-level sequences of the controller.
#[derive(Debug, Clone, Copy, PartialEq, Eq, Structural)]
pub struct QspiLowLevel;

impl QspiLowLevel {
    pub fn initialize(&self, clock_config: ClockConfig, mode: SpiMode) -> (ops: Vec<QspiOp>)
        ensures
            ops@ == initialize_ops(clock_config, mode),
    {
        let mut ops: Vec<QspiOp> = Vec::new();
        push_slcr_ops(&mut ops, &enable_qspi_clock());
        push_slcr_ops(&mut ops, &reset());
        let (cpol, cpha) = spi_mode_const_to_cpol_cpha(mode);
        push_slcr_ops(
            &mut ops,
            &slcr::with_unlocked_one(
                SlcrOp::WriteQspiClock {
                    src_sel: clock_config.src_sel,
                    divisor: clock_config.ref_clk_div,
                },
            ),
        );
        ops.push(
            QspiOp::WriteConfig(
                RegisterConfig {
                    flash_memory_interface: true,
                    big_endian: false,
                    holdb_dr: true,
                    manual_start_command: false,
                    manual_start_enable: false,
                    manual_cs: false,
                    peripheral_chip_select: false,
                    fifo_width: 0b11,
                    baud_rate_div: clock_config.baud_rate_config.baud_rate_divisor(),
                    clock_phase: cpha,
                    clock_polarity: cpol,
                    mode_select: true,
                },
            ),
        );
        if matches!(clock_config.baud_rate_config, BaudRateConfig::WithLoopback) {
            ops.push(QspiOp::UseLoopbackClock);
        }
        assert(ops@ =~= initialize_ops(clock_config, mode));
        ops
    }

    pub fn enable_linear_addressing(&self, config: LinearQspiConfig) -> (ops: Vec<QspiOp>)
        ensures
            ops@ == linear_mode_ops(config),
    {
        let mut ops: Vec<QspiOp> = Vec::new();
        ops.push(QspiOp::WriteSpiEnable(false));
        ops.push(QspiOp::ModifyConfig(ConfigUpdate::Linear));
        ops.push(QspiOp::WriteLinearConfig(config));
        assert(ops@ =~= linear_mode_ops(config));
        ops
    }

    pub fn enable_io_mode(&self, dual_flash: bool) -> (ops: Vec<QspiOp>)
        ensures
            ops@ == io_mode_ops(dual_flash),
    {
        let mut ops: Vec<QspiOp> = Vec::new();
        ops.push(QspiOp::ModifyConfig(ConfigUpdate::Manual));
        ops.push(QspiOp::WriteRxFifoThreshold(0x1));
        ops.push(QspiOp::WriteTxFifoThreshold(0x1));
        ops.push(
            QspiOp::WriteLinearConfig(
                LinearQspiConfig {
                    enable_linear_mode: false,
                    both_memories: dual_flash,
                    separate_memory_bus: dual_flash,
                    upper_memory_page: false,
                    mode_enable: false,
                    mode_on: true,
                    mode_bits: 0xA0,
                    num_dummy_bytes: 0x2,
                    instruction_code: InstructionCode::FastReadQuadIo,
                },
            ),
        );
        assert(ops@ =~= io_mode_ops(dual_flash));
        ops
    }
}

/// Byte `k` of an address, from the most significant one.
pub open spec fn address_byte(address: u32, k: int) -> int {
    if k == 0 {
        address as int / 0x100_0000
    } else if k == 1 {
        (address as int / 0x1_0000) % 0x100
    } else if k == 2 {
        (address as int / 0x100) % 0x100
    } else {
        address as int % 0x100
    }
}

/// The words that send an opcode and an address. The flash takes the opcode first
/// and the address with its most significant byte first; words go out with their
/// least significant byte first.
pub open spec fn command_address_ops(width: AddressWidth, opcode: u8, address: u32) -> Seq<QspiOp> {
    match width {
        AddressWidth::Bits24 => seq![
            QspiOp::WriteTx00(
                (opcode + address_byte(address, 1) * 0x100 + address_byte(address, 2) * 0x1_0000
                    + address_byte(address, 3) * 0x100_0000) as u32,
            ),
        ],
        AddressWidth::Bits32 => seq![
            QspiOp::WriteTx01(opcode as u32),
            QspiOp::WriteTx00(
                (address_byte(address, 0) + address_byte(address, 1) * 0x100 + address_byte(
                    address,
                    2,
                ) * 0x1_0000 + address_byte(address, 3) * 0x100_0000) as u32,
            ),
        ],
    }
}

pub fn write_command_address(width: AddressWidth, opcode: u8, address: u32) -> (ops: Vec<QspiOp>)
    ensures
        ops@ == command_address_ops(width, opcode, address),
        ops.len() == width.words(),
{
    let b0: u32 = address / 0x100_0000;
    let b1: u32 = (address / 0x1_0000) % 0x100;
    let b2: u32 = (address / 0x100) % 0x100;
    let b3: u32 = address % 0x100;
    let mut ops: Vec<QspiOp> = Vec::new();
    match width {
        AddressWidth::Bits24 => {
            ops.push(
                QspiOp::WriteTx00(opcode as u32 + b1 * 0x100 + b2 * 0x1_0000 + b3 * 0x100_0000),
            );
        },
        AddressWidth::Bits32 => {
            ops.push(QspiOp::WriteTx01(opcode as u32));
            ops.push(QspiOp::WriteTx00(b0 + b1 * 0x100 + b2 * 0x1_0000 + b3 * 0x100_0000));
        },
    }
    assert(ops@ =~= command_address_ops(width, opcode, address));
    ops
}

/// A command for the flash.
#[derive(Debug, Clone, Copy, PartialEq, Eq, Structural)]
pub enum FlashCommand {
    ReadStatus,
    WriteEnable,
    ClearStatus { opcode: u8 },
    Erase { address: u32 },
    /// Program bytes `first` to `first + len` of the data at `address`.
    Program { address: u32, first: usize, len: usize },
}

/// The words of a command before its data.
pub open spec fn command_ops(config: Config, command: FlashCommand) -> Seq<QspiOp> {
    match command {
        FlashCommand::ReadStatus => seq![QspiOp::WriteTx10(config.read_status_opcode as u32)],
        FlashCommand::WriteEnable => seq![QspiOp::WriteTx01(config.write_enable_opcode as u32)],
        FlashCommand::ClearStatus { opcode } => seq![QspiOp::WriteTx01(opcode as u32)],
        FlashCommand::Erase { address } => command_address_ops(
            config.address_width,
            config.erase_opcode,
            address,
        ),
        FlashCommand::Program { address, .. } => command_address_ops(
            config.address_width,
            config.page_program_opcode,
            address,
        ),
    }
}

/// Opening a command: I/O mode, the flash selected, the words of the command.
pub open spec fn begin_ops(config: Config, mode: ControllerMode, command: FlashCommand) -> Seq<
    QspiOp,
> {
    (if mode is Io {
        Seq::empty()
    } else {
        io_mode_ops(config.linear_config.both_memories)
    }) + open_ops() + command_ops(config, command) + (if command is Program {
        Seq::empty()
    } else {
        seq![QspiOp::ModifyConfig(ConfigUpdate::ManualStartCommand)]
    })
}

/// Closing a command: the flash released, and linear mode after a reply.
pub open spec fn end_ops(config: Config, mode: ControllerMode, replied: bool) -> Seq<QspiOp> {
    close_ops() + (if replied && !(mode is Linear) {
        linear_mode_ops(config.linear_config)
    } else {
        Seq::empty()
    })
}

/// Making the flash readable where it is mapped.
pub open spec fn read_ops(config: Config, mode: ControllerMode) -> Seq<QspiOp> {
    (if mode is Linear {
        Seq::empty()
    } else {
        linear_mode_ops(config.linear_config)
    }) + seq![QspiOp::WriteSpiEnable(true)]
}

/// How many words of reply a command has before its data.
pub open spec fn command_reply_words(config: Config, command: FlashCommand) -> int {
    match command {
        FlashCommand::ReadStatus
        | FlashCommand::WriteEnable
        | FlashCommand::ClearStatus { .. } => 1,
        FlashCommand::Erase { .. } | FlashCommand::Program { .. } => config.address_width.words(),
    }
}

/// Whether the status that follows a write enable shows that it latched.
pub fn write_enable_latched(status: u8) -> (r: Result<(), Error>)
    ensures
        r == (if (status / 2) % 2 == 0 {
            Err(Error::WriteEnableFailed)
        } else {
            Ok(())
        }),
{
    if (status / 2) % 2 == 0 {
        return Err(Error::WriteEnableFailed);
    }
    Ok(())
}

/// Waiting for the words that a command receives.
#[derive(Debug, Clone, Copy, PartialEq, Eq, Structural)]
pub struct RxWait {
    pub target_words: usize,
    pub words: usize,
    pub spins: usize,
    pub last_word: u32,
}

/// What follows a look at the receive FIFO.
#[derive(Debug, Clone, Copy, PartialEq, Eq, Structural)]
pub enum RxPoll {
    /// All words are in; this is the last one.
    Done(u32),
    /// Look again.
    Again,
    /// Nothing came for too long.
    TimedOut,
}

impl RxWait {
    pub open spec fn wf(self) -> bool {
        self.words <= self.target_words && self.spins < COMMAND_WAIT_LIMIT
    }

    pub fn new(target_words: usize) -> (r: Self)
        ensures
            r == (RxWait { target_words, words: 0, spins: 0, last_word: 0 }),
            r.wf(),
    {
        RxWait { target_words, words: 0, spins: 0, last_word: 0 }
    }

    /// Whether all words are in, with the last one.
    pub fn finished(&self) -> (r: Option<u32>)
        ensures
            r == if self.words >= self.target_words {
                Some(self.last_word)
            } else {
                None
            },
    {
        if self.words >= self.target_words {
            Some(self.last_word)
        } else {
            None
        }
    }

    /// One look at the FIFO of a wait that is not finished: `word` is what was read
    /// from it where it was above its threshold. Every word restarts the timeout.
    pub fn poll(&mut self, word: Option<u32>) -> (r: RxPoll)
        requires
            old(self).wf(),
            old(self).words < old(self).target_words,
        ensures
            match word {
                Some(w) => {
                    &&& *final(self) == (RxWait {
                        words: (old(self).words + 1) as usize,
                        spins: 0,
                        last_word: w,
                        ..*old(self)
                    })
                    &&& r == if old(self).words + 1 == old(self).target_words {
                        RxPoll::Done(w)
                    } else {
                        RxPoll::Again
                    }
                },
                None => {
                    &&& *final(self) == (RxWait {
                        spins: (old(self).spins + 1) as usize,
                        ..*old(self)
                    })
                    &&& r == if old(self).spins + 1 >= COMMAND_WAIT_LIMIT {
                        RxPoll::TimedOut
                    } else {
                        RxPoll::Again
                    }
                },
            },
            r is Again || r is Done ==> final(self).wf(),
    {
        match word {
            Some(w) => {
                self.last_word = w;
                self.words = self.words + 1;
                self.spins = 0;
                if self.words >= self.target_words {
                    RxPoll::Done(w)
                } else {
                    RxPoll::Again
                }
            },
            None => {
                self.spins = self.spins + 1;
                if self.spins >= COMMAND_WAIT_LIMIT {
                    RxPoll::TimedOut
                } else {
                    RxPoll::Again
                }
            },
        }
    }
}

/// Programming the bytes of one page: words go out as long as there is room, and
/// one word comes in for each that went out.
#[derive(Debug, Clone, Copy, PartialEq, Eq, Structural)]
pub struct ProgramDrain {
    pub total_data_words: usize,
    pub queued_words: usize,
    pub wait: RxWait,
}

impl ProgramDrain {
    pub open spec fn wf(self) -> bool {
        &&& self.queued_words <= self.total_data_words
        &&& self.total_data_words * 4 <= usize::MAX
        &&& self.wait.wf()
    }

    /// Programs `len` bytes behind a header of `header_words` words.
    pub fn new(len: usize, header_words: usize) -> (r: Self)
        requires
            header_words <= 2,
        ensures
            r.wf(),
            r.total_data_words == len / 4,
            r.queued_words == 0,
            r.wait == (RxWait {
                target_words: (header_words + len / 4) as usize,
                words: 0,
                spins: 0,
                last_word: 0,
            }),
    {
        let total_data_words: usize = len / 4;
        ProgramDrain {
            total_data_words,
            queued_words: 0,
            wait: RxWait::new(header_words + total_data_words),
        }
    }

    /// The index of the first byte of the next word, if there is one to queue and
    /// the transmit FIFO is not full.
    pub fn queue_program_word(&mut self, tx_full: bool) -> (r: Option<usize>)
        requires
            old(self).wf(),
        ensures
            final(self).wf(),
            final(self).wait == old(self).wait,
            final(self).total_data_words == old(self).total_data_words,
            if !tx_full && old(self).queued_words < old(self).total_data_words {
                &&& r == Some((old(self).queued_words * 4) as usize)
                &&& final(self).queued_words == old(self).queued_words + 1
            } else {
                &&& r is None
                &&& *final(self) == *old(self)
            },
    {
        if !tx_full && self.queued_words < self.total_data_words {
            let byte_index: usize = self.queued_words * 4;
            self.queued_words = self.queued_words + 1;
            return Some(byte_index);
        }
        None
    }
}

/// A word of four bytes of data, least significant byte first.
pub fn program_word(bytes: &[u8], index: usize) -> (r: u32)
    requires
        index + 4 <= bytes@.len(),
    ensures
        r == bytes@[index as int] + bytes@[index + 1] * 0x100 + bytes@[index + 2] * 0x1_0000
            + bytes@[index + 3] * 0x100_0000,
        laws::word_bytes(r) == bytes@.subrange(index as int, index + 4),
{
    proof {
        let (b0, b1) = (bytes@[index as int], bytes@[index + 1]);
        let (b2, b3) = (bytes@[index + 2], bytes@[index + 3]);
        let word = (b0 + b1 * 0x100 + b2 * 0x1_0000 + b3 * 0x100_0000) as u32;
        laws::word_of_bytes_sends_them(b0, b1, b2, b3, word);
        assert(seq![b0, b1, b2, b3] =~= bytes@.subrange(index as int, index + 4));
    }
    bytes[index] as u32 + (bytes[index + 1] as u32) * 0x100 + (bytes[index + 2] as u32) * 0x1_0000
        + (bytes[index + 3] as u32) * 0x100_0000
}

/// Quad-SPI flash driver. Writes come in `WRITE_SIZE` bytes, erases in `ERASE_SIZE` bytes.
#[derive(Debug)]
pub struct Qspi<const WRITE_SIZE: usize, const ERASE_SIZE: usize> {
    pub config: Config,
    pub controller_mode: ControllerMode,
}

/// Pin and controller accesses of a new driver.
#[derive(Debug)]
pub struct QspiSetup {
    pub pin_ops: Vec<GpioOp>,
    pub ops: Vec<QspiOp>,
}

/// Multiplexer setting that routes a pin to the controller.
pub open spec fn qspi_mux() -> MuxConfig {
    MuxConfig { l3: 0, l2: 0, l1: false, l0: true }
}

pub open spec fn pin_ops(signal: QspiSignal, pullup: bool, voltage: IoType) -> Seq<GpioOp> {
    gpio::periph_ops(
        chip::qspi_pin_of(signal) as int,
        qspi_mux(),
        Some(pullup),
        Some(voltage),
    )
}

pub fn configure_qspi_pin(signal: QspiSignal, pullup: bool, voltage: IoType) -> (ops: Vec<GpioOp>)
    ensures
        ops@ == pin_ops(signal, pullup, voltage),
{
    let offset: usize = chip::qspi_pin(signal) as usize;
    let ll = LowLevelGpio::new(PinOffset::Mio(offset));
    ll.configure_as_io_periph_pin(
        MuxConfig::new(true, false, 0, 0),
        Some(pullup),
        Some(voltage),
    )
}

/// The pins of one flash: only the chip select has a pull-up.
pub open spec fn single_flash_pin_ops(voltage: IoType) -> Seq<GpioOp> {
    pin_ops(QspiSignal::ChipSelect0, true, voltage) + pin_ops(QspiSignal::Io0, false, voltage)
        + pin_ops(QspiSignal::Io1, false, voltage) + pin_ops(QspiSignal::Io2, false, voltage)
        + pin_ops(QspiSignal::Io3, false, voltage) + pin_ops(QspiSignal::Clock, false, voltage)
}

impl<const WRITE_SIZE: usize, const ERASE_SIZE: usize> Qspi<WRITE_SIZE, ERASE_SIZE> {
    /// A new driver in linear mode, unless its sizes do not fit the configuration.
    pub fn new_blocking(config: Config) -> (r: Result<(Self, QspiSetup), Error>)
        ensures
            if WRITE_SIZE != 4 {
                r == Err::<(Self, QspiSetup), Error>(Error::InvalidWriteSize)
            } else if config.erase_size != ERASE_SIZE || config.erase_size == 0 {
                r == Err::<(Self, QspiSetup), Error>(Error::InvalidEraseSize)
            } else {
                &&& r is Ok
                &&& r->Ok_0.0.config == config
                &&& r->Ok_0.0.controller_mode is Linear
                &&& r->Ok_0.1.pin_ops@ == single_flash_pin_ops(config.voltage)
                &&& r->Ok_0.1.ops@ == initialize_ops(config.clock_config, config.mode)
                    + linear_mode_ops(config.linear_config)
            },
    {
        match validate_write_size::<WRITE_SIZE>() {
            Ok(()) => {},
            Err(e) => return Err(e),
        }
        if config.erase_size as usize != ERASE_SIZE || config.erase_size == 0 {
            return Err(Error::InvalidEraseSize);
        }
        let mut pin_ops = configure_qspi_pin(QspiSignal::ChipSelect0, true, config.voltage);
        let mut io0 = configure_qspi_pin(QspiSignal::Io0, false, config.voltage);
        let mut io1 = configure_qspi_pin(QspiSignal::Io1, false, config.voltage);
        let mut io2 = configure_qspi_pin(QspiSignal::Io2, false, config.voltage);
        let mut io3 = configure_qspi_pin(QspiSignal::Io3, false, config.voltage);
        let mut clk = configure_qspi_pin(QspiSignal::Clock, false, config.voltage);
        pin_ops.append(&mut io0);
        pin_ops.append(&mut io1);
        pin_ops.append(&mut io2);
        pin_ops.append(&mut io3);
        pin_ops.append(&mut clk);
        let ll = QspiLowLevel;
        let mut ops = ll.initialize(config.clock_config, config.mode);
        let mut linear = ll.enable_linear_addressing(config.linear_config);
        ops.append(&mut linear);
        Ok(
            (
                Qspi { config, controller_mode: ControllerMode::Linear },
                QspiSetup { pin_ops, ops },
            ),
        )
    }

    pub fn ensure_linear_mode(&mut self) -> (ops: Vec<QspiOp>)
        ensures
            final(self).config == old(self).config,
            final(self).controller_mode is Linear,
            ops@ == if old(self).controller_mode is Linear {
                Seq::empty()
            } else {
                linear_mode_ops(old(self).config.linear_config)
            },
    {
        if !matches!(self.controller_mode, ControllerMode::Linear) {
            self.controller_mode = ControllerMode::Linear;
            let ll = QspiLowLevel;
            return ll.enable_linear_addressing(self.config.linear_config);
        }
        let ops: Vec<QspiOp> = Vec::new();
        assert(ops@ =~= Seq::<QspiOp>::empty());
        ops
    }

    pub fn ensure_io_mode(&mut self) -> (ops: Vec<QspiOp>)
        ensures
            final(self).config == old(self).config,
            final(self).controller_mode is Io,
            ops@ == if old(self).controller_mode is Io {
                Seq::empty()
            } else {
                io_mode_ops(old(self).config.linear_config.both_memories)
            },
    {
        if !matches!(self.controller_mode, ControllerMode::Io) {
            self.controller_mode = ControllerMode::Io;
            let ll = QspiLowLevel;
            return ll.enable_io_mode(self.config.linear_config.both_memories);
        }
        let ops: Vec<QspiOp> = Vec::new();
        assert(ops@ =~= Seq::<QspiOp>::empty());
        ops
    }

    pub fn capacity(&self) -> (r: usize)
        ensures
            r == self.config.capacity,
    {
        self.config.capacity
    }

    /// A read of `len` bytes at `offset`: the accesses before it and the address to
    /// copy from. Afterwards the controller is switched off again.
    pub fn blocking_read(&mut self, offset: u32, len: usize) -> (r: Result<
        (Vec<QspiOp>, usize),
        Error,
    >)
        requires
            offset + len <= usize::MAX,
            offset + len <= old(self).config.capacity ==> QSPI_START_ADDRESS + offset
                <= usize::MAX,
        ensures
            final(self).config == old(self).config,
            if offset + len > old(self).config.capacity {
                &&& r == Err::<(Vec<QspiOp>, usize), Error>(Error::OutOfRange)
                &&& *final(self) == *old(self)
            } else {
                &&& final(self).controller_mode is Linear
                &&& r is Ok
                &&& r->Ok_0.0@ == read_ops(old(self).config, old(self).controller_mode)
                &&& r->Ok_0.1 == QSPI_START_ADDRESS + offset
            },
    {
        if offset as usize + len > self.config.capacity {
            return Err(Error::OutOfRange);
        }
        let mut ops = self.ensure_linear_mode();
        let ghost switch = ops@;
        ops.push(QspiOp::WriteSpiEnable(true));
        assert(ops@ =~= switch + seq![QspiOp::WriteSpiEnable(true)]);
        Ok((ops, QSPI_START_ADDRESS + offset as usize))
    }

    /// Opens a command: switch to I/O mode, select the flash, send the words of the
    /// command. All but a program command are started right away.
    pub fn begin_command(&mut self, command: FlashCommand) -> (ops: Vec<QspiOp>)
        ensures
            final(self).config == old(self).config,
            final(self).controller_mode is Io,
            ops@ == begin_ops(old(self).config, old(self).controller_mode, command),
    {
        let mut ops = self.ensure_io_mode();
        let ghost switch = ops@;
        ops.push(QspiOp::DrainRx);
        ops.push(QspiOp::ModifyConfig(ConfigUpdate::PeripheralChipSelect(false)));
        ops.push(QspiOp::WriteSpiEnable(true));
        match command {
            FlashCommand::ReadStatus => ops.push(
                QspiOp::WriteTx10(self.config.read_status_opcode as u32),
            ),
            FlashCommand::WriteEnable => ops.push(
                QspiOp::WriteTx01(self.config.write_enable_opcode as u32),
            ),
            FlashCommand::ClearStatus { opcode } => ops.push(QspiOp::WriteTx01(opcode as u32)),
            FlashCommand::Erase { address } => {
                let mut words = write_command_address(
                    self.config.address_width,
                    self.config.erase_opcode,
                    address,
                );
                ops.append(&mut words);
            },
            FlashCommand::Program { address, .. } => {
                let mut words = write_command_address(
                    self.config.address_width,
                    self.config.page_program_opcode,
                    address,
                );
                ops.append(&mut words);
            },
        }
        assert(ops@ =~= switch + open_ops() + command_ops(self.config, command));
        if !matches!(command, FlashCommand::Program { .. }) {
            ops.push(QspiOp::ModifyConfig(ConfigUpdate::ManualStartCommand));
        }
        assert(ops@ =~= switch + open_ops() + command_ops(self.config, command) + (
        if command is Program {
            Seq::empty()
        } else {
            seq![QspiOp::ModifyConfig(ConfigUpdate::ManualStartCommand)]
        }));
        ops
    }

    /// The access that starts a program command once its first words are queued.
    pub fn start_program(&self) -> (op: QspiOp)
        ensures
            op == QspiOp::ModifyConfig(ConfigUpdate::ManualStartCommand),
    {
        QspiOp::ModifyConfig(ConfigUpdate::ManualStartCommand)
    }

    /// The wait for the replies of a command that is not a program command.
    pub fn reply_wait(&self, command: FlashCommand) -> (r: RxWait)
        ensures
            r == (RxWait {
                target_words: command_reply_words(self.config, command) as usize,
                words: 0,
                spins: 0,
                last_word: 0,
            }),
    {
        match command {
            FlashCommand::ReadStatus
            | FlashCommand::WriteEnable
            | FlashCommand::ClearStatus { .. } => RxWait::new(1),
            FlashCommand::Erase { .. } | FlashCommand::Program { .. } => RxWait::new(
                self.config.address_width.command_words(),
            ),
        }
    }

    /// Closes a command. After a reply the controller goes back to linear mode;
    /// after a timeout it stays in I/O mode.
    pub fn end_command(&mut self, replied: bool) -> (ops: Vec<QspiOp>)
        ensures
            final(self).config == old(self).config,
            final(self).controller_mode == (if replied {
                ControllerMode::Linear
            } else {
                old(self).controller_mode
            }),
            ops@ == end_ops(old(self).config, old(self).controller_mode, replied),
    {
        let mut ops: Vec<QspiOp> = Vec::new();
        ops.push(QspiOp::ModifyConfig(ConfigUpdate::PeripheralChipSelect(true)));
        ops.push(QspiOp::WriteSpiEnable(false));
        if replied {
            let mut linear = self.ensure_linear_mode();
            ops.append(&mut linear);
        }
        assert(ops@ =~= close_ops() + (if replied && !(old(self).controller_mode is Linear) {
            linear_mode_ops(old(self).config.linear_config)
        } else {
            Seq::empty()
        }));
        ops
    }

    /// The status that a reply word holds, in its last byte.
    pub fn status_of(&self, reply: u32) -> (r: u8)
        ensures
            r == reply / 0x100_0000,
            r == laws::word_bytes(reply)[3],
    {
        (reply / 0x100_0000) as u8
    }

    /// Checks an erase of `[from, to)` and starts it.
    pub fn blocking_erase(&self, from: u32, to: u32) -> (r: Result<FlashOperation, Error>)
        requires
            from <= to <= self.config.capacity ==> self.config.erase_size > 0,
        ensures
            r == if from > to || to > self.config.capacity {
                Err::<FlashOperation, Error>(Error::OutOfRange)
            } else if from % self.config.erase_size != 0 || to % self.config.erase_size != 0 {
                Err(Error::UnalignedErase)
            } else {
                Ok(
                    FlashOperation {
                        kind: OperationKind::Erase,
                        address: from,
                        first: 0,
                        remaining: (to - from) as usize,
                        phase: Phase::Enable,
                    },
                )
            },
            r is Ok ==> r->Ok_0.wf(self.config),
    {
        let erase_size: u32 = self.config.erase_size;
        if from > to || to as usize > self.config.capacity {
            return Err(Error::OutOfRange);
        }
        if from % erase_size != 0 || to % erase_size != 0 {
            return Err(Error::UnalignedErase);
        }
        proof {
            lemma_difference_of_multiples(from as int, to as int, erase_size as int);
        }
        Ok(
            FlashOperation {
                kind: OperationKind::Erase,
                address: from,
                first: 0,
                remaining: (to - from) as usize,
                phase: Phase::Enable,
            },
        )
    }

    /// Checks a write of `len` bytes at `offset` and starts it.
    pub fn blocking_write(&self, offset: u32, len: usize) -> (r: Result<FlashOperation, Error>)
        requires
            WRITE_SIZE == 4,
            offset + len <= usize::MAX,
            offset + len <= self.config.capacity ==> offset + len <= u32::MAX,
            offset + len <= self.config.capacity && len > 0 ==> self.config.page_size > 0,
        ensures
            r == if offset + len > self.config.capacity {
                Err::<FlashOperation, Error>(Error::OutOfRange)
            } else if offset as usize % WRITE_SIZE != 0 || len % WRITE_SIZE != 0 {
                Err(Error::UnalignedWrite)
            } else {
                Ok(
                    FlashOperation {
                        kind: OperationKind::Write,
                        address: offset,
                        first: 0,
                        remaining: len,
                        phase: Phase::Enable,
                    },
                )
            },
            r is Ok ==> r->Ok_0.wf(self.config),
    {
        if offset as usize + len > self.config.capacity {
            return Err(Error::OutOfRange);
        }
        if offset as usize % WRITE_SIZE != 0 || len % WRITE_SIZE != 0 {
            return Err(Error::UnalignedWrite);
        }
        Ok(
            FlashOperation {
                kind: OperationKind::Write,
                address: offset,
                first: 0,
                remaining: len,
                phase: Phase::Enable,
            },
        )
    }
}

proof fn lemma_difference_of_multiples(a: int, b: int, m: int)
    requires
        m > 0,
        0 <= a <= b,
        a % m == 0,
        b % m == 0,
    ensures
        (b - a) % m == 0,
{
    vstd::arithmetic::div_mod::lemma_sub_mod_noop(b, a, m);
    vstd::arithmetic::div_mod::lemma_small_mod(0, m as nat);
}

proof fn lemma_positive_multiple_is_large(a: int, m: int)
    requires
        m > 0,
        a > 0,
        a % m == 0,
    ensures
        a >= m,
{
    if a < m {
        vstd::arithmetic::div_mod::lemma_small_mod(a as nat, m as nat);
    }
}

#[derive(Debug, Clone, Copy, PartialEq, Eq, Structural)]
pub enum OperationKind {
    Erase,
    Write,
}

/// Where an operation is in the sequence for one sector or page: the command whose
/// reply it waits for.
#[derive(Debug, Clone, Copy, PartialEq, Eq, Structural)]
pub enum Phase {
    /// Nothing was sent yet.
    Enable,
    /// Write enable was sent.
    Enabled,
    /// The status is read to see whether write enable latched.
    Latch,
    /// The erase or program command was sent.
    Execute,
    /// The status is read until the flash is ready, for the `tries`-th time.
    Ready { tries: usize },
    /// The status is read to see whether the command succeeded.
    Verify,
    /// The failure status is cleared.
    Clear,
}

/// An erase or write in progress: `remaining` bytes from `address` on, which are the
/// bytes of the data from `first` on.
#[derive(Debug, Clone, Copy, PartialEq, Eq, Structural)]
pub struct FlashOperation {
    pub kind: OperationKind,
    pub address: u32,
    pub first: usize,
    pub remaining: usize,
    pub phase: Phase,
}

#[derive(Debug, Clone, Copy, PartialEq, Eq)]
pub enum FlashAction {
    /// Send a command and report its reply.
    Send(FlashCommand),
    /// The operation is over.
    Finish(Result<(), Error>),
}

/// The bytes that the command at `address` covers: a sector, or what is left of the
/// page and of the data.
pub open spec fn step_len(config: Config, kind: OperationKind, address: int, remaining: int) -> int {
    match kind {
        OperationKind::Erase => config.erase_size as int,
        OperationKind::Write => {
            let room = config.page_size - address % (config.page_size as int);
            if room < remaining {
                room
            } else {
                remaining
            }
        },
    }
}

impl FlashOperation {
    /// The rest lies in the flash. What is left to erase is whole sectors, what is
    /// left to write goes to pages.
    pub open spec fn wf(self, config: Config) -> bool {
        &&& self.address + self.remaining <= config.capacity
        &&& self.address + self.remaining <= u32::MAX
        &&& self.first + self.remaining <= usize::MAX
        &&& self.kind is Erase ==> config.erase_size > 0
        &&& self.kind is Erase ==> self.remaining % (config.erase_size as usize) == 0
        &&& self.kind is Write && self.remaining > 0 ==> config.page_size > 0
        &&& (self.phase matches Phase::Ready { tries } ==> tries < COMMAND_WAIT_LIMIT)
        &&& !(self.phase is Enable) ==> self.remaining > 0
    }

    /// The bytes of the current command.
    pub open spec fn current_len(self, config: Config) -> int {
        step_len(config, self.kind, self.address as int, self.remaining as int)
    }

    pub open spec fn current_command(self, config: Config) -> FlashCommand {
        match self.kind {
            OperationKind::Erase => FlashCommand::Erase { address: self.address },
            OperationKind::Write => FlashCommand::Program {
                address: self.address,
                first: self.first,
                len: self.current_len(config) as usize,
            },
        }
    }

    /// The rest after the current command.
    pub open spec fn advanced(self, config: Config) -> FlashOperation {
        let len = self.current_len(config);
        FlashOperation {
            address: (self.address + len) as u32,
            first: (self.first + len) as usize,
            remaining: (self.remaining - len) as usize,
            phase: Phase::Enable,
            ..self
        }
    }

    pub open spec fn at(self, phase: Phase) -> FlashOperation {
        FlashOperation { phase, ..self }
    }

    /// Begin the next sector or page, or finish.
    pub open spec fn begun(self) -> (FlashOperation, FlashAction) {
        if self.remaining == 0 {
            (self, FlashAction::Finish(Ok(())))
        } else {
            (self.at(Phase::Enabled), FlashAction::Send(FlashCommand::WriteEnable))
        }
    }

    /// The step after the reply `status` to the command that was sent last. Only
    /// status commands look at it.
    pub open spec fn after(self, config: Config, status: u8) -> (FlashOperation, FlashAction) {
        match self.phase {
            Phase::Enable => self.begun(),
            Phase::Enabled => (
                self.at(Phase::Latch),
                FlashAction::Send(FlashCommand::ReadStatus),
            ),
            Phase::Latch => if (status / 2) % 2 == 0 {
                (self, FlashAction::Finish(Err(Error::WriteEnableFailed)))
            } else {
                (self.at(Phase::Execute), FlashAction::Send(self.current_command(config)))
            },
            Phase::Execute => (
                self.at(Phase::Ready { tries: 0 }),
                FlashAction::Send(FlashCommand::ReadStatus),
            ),
            Phase::Ready { tries } => if status % 2 == 0 {
                if config.clear_status_opcode is Some {
                    (self.at(Phase::Verify), FlashAction::Send(FlashCommand::ReadStatus))
                } else {
                    self.advanced(config).begun()
                }
            } else if tries + 1 >= COMMAND_WAIT_LIMIT {
                (self, FlashAction::Finish(Err(Error::BusyTimeout)))
            } else {
                (
                    self.at(Phase::Ready { tries: (tries + 1) as usize }),
                    FlashAction::Send(FlashCommand::ReadStatus),
                )
            },
            Phase::Verify => match config.clear_status_opcode {
                Some(opcode) => if (status / 32) % 4 != 0 {
                    (
                        self.at(Phase::Clear),
                        FlashAction::Send(FlashCommand::ClearStatus { opcode }),
                    )
                } else {
                    self.advanced(config).begun()
                },
                None => self.advanced(config).begun(),
            },
            Phase::Clear => (self, FlashAction::Finish(Err(Error::OperationFailed))),
        }
    }

    fn next_chunk(&self, config: &Config) -> (r: usize)
        requires
            self.wf(*config),
            self.remaining > 0,
        ensures
            r == self.current_len(*config),
            0 < r <= self.remaining,
    {
        match self.kind {
            OperationKind::Erase => {
                proof {
                    lemma_positive_multiple_is_large(
                        self.remaining as int,
                        config.erase_size as int,
                    );
                }
                config.erase_size as usize
            },
            OperationKind::Write => {
                let page_offset: usize = self.address as usize % config.page_size;
                let room: usize = config.page_size - page_offset;
                if room < self.remaining {
                    room
                } else {
                    self.remaining
                }
            },
        }
    }

    fn begin(&mut self, config: &Config) -> (r: FlashAction)
        requires
            old(self).wf(*config),
            old(self).phase is Enable,
        ensures
            (*final(self), r) == old(self).begun(),
            final(self).wf(*config),
    {
        if self.remaining == 0 {
            return FlashAction::Finish(Ok(()));
        }
        self.phase = Phase::Enabled;
        FlashAction::Send(FlashCommand::WriteEnable)
    }

    fn advance(&mut self, config: &Config) -> (r: FlashAction)
        requires
            old(self).wf(*config),
            old(self).remaining > 0,
        ensures
            (*final(self), r) == old(self).advanced(*config).begun(),
            final(self).wf(*config),
    {
        let len: usize = self.next_chunk(config);
        let ghost before = *self;
        self.address = self.address + len as u32;
        self.first = self.first + len;
        self.remaining = self.remaining - len;
        self.phase = Phase::Enable;
        proof {
            if self.kind is Erase {
                let m = config.erase_size as int;
                assert(m % m == 0) by {
                    vstd::arithmetic::div_mod::lemma_mod_self_0(m);
                }
                lemma_difference_of_multiples(m, before.remaining as int, m);
            }
        }
        self.begin(config)
    }

    /// One step of the operation, with the reply to the command that was sent last.
    ///
    /// The first step takes any status. A command that failed ends the operation with
    /// its error.
    pub fn step(&mut self, config: &Config, reply: Result<u8, Error>) -> (r: FlashAction)
        requires
            old(self).wf(*config),
        ensures
            match reply {
                Ok(status) => (*final(self), r) == old(self).after(*config, status),
                Err(e) => *final(self) == *old(self) && r == FlashAction::Finish(Err(e)),
            },
            r is Send ==> final(self).wf(*config),
    {
        let status: u8 = match reply {
            Ok(status) => status,
            Err(e) => return FlashAction::Finish(Err(e)),
        };
        match self.phase {
            Phase::Enable => self.begin(config),
            Phase::Enabled => {
                self.phase = Phase::Latch;
                FlashAction::Send(FlashCommand::ReadStatus)
            },
            Phase::Latch => {
                if let Err(e) = write_enable_latched(status) {
                    return FlashAction::Finish(Err(e));
                }
                let command = match self.kind {
                    OperationKind::Erase => FlashCommand::Erase { address: self.address },
                    OperationKind::Write => FlashCommand::Program {
                        address: self.address,
                        first: self.first,
                        len: self.next_chunk(config),
                    },
                };
                self.phase = Phase::Execute;
                FlashAction::Send(command)
            },
            Phase::Execute => {
                self.phase = Phase::Ready { tries: 0 };
                FlashAction::Send(FlashCommand::ReadStatus)
            },
            Phase::Ready { tries } => {
                if status % 2 == 0 {
                    if config.clear_status_opcode.is_some() {
                        self.phase = Phase::Verify;
                        return FlashAction::Send(FlashCommand::ReadStatus);
                    }
                    return self.advance(config);
                }
                if tries + 1 >= COMMAND_WAIT_LIMIT {
                    return FlashAction::Finish(Err(Error::BusyTimeout));
                }
                self.phase = Phase::Ready { tries: tries + 1 };
                FlashAction::Send(FlashCommand::ReadStatus)
            },
            Phase::Verify => {
                if let Some(opcode) = config.clear_status_opcode {
                    if (status / 32) % 4 != 0 {
                        self.phase = Phase::Clear;
                        return FlashAction::Send(FlashCommand::ClearStatus { opcode });
                    }
                }
                self.advance(config)
            },
            Phase::Clear => FlashAction::Finish(Err(Error::OperationFailed)),
        }
    }
}

/// A program command never crosses a page, never leaves the data, and is not empty.
pub proof fn program_stays_in_one_page(config: Config, op: FlashOperation)
    requires
        op.wf(config),
        op.kind is Write,
        op.remaining > 0,
    ensures
        op.current_command(config) matches FlashCommand::Program { address, first, len } && {
            &&& address == op.address
            &&& first == op.first
            &&& 0 < len <= op.remaining
            &&& address as int % (config.page_size as int) + len <= config.page_size
        },
{
    let p = config.page_size as int;
    assert(0 <= op.address as int % p < p) by (nonlinear_arith)
        requires
            p > 0,
    ;
}

/// Each round covers the bytes right behind the ones before, so the rounds of an
/// operation cover its range from the first to the last byte.
pub proof fn rounds_cover_the_range(config: Config, op: FlashOperation)
    requires
        op.wf(config),
        op.remaining > 0,
    ensures
        op.advanced(config).address == op.address + op.current_len(config),
        op.advanced(config).first == op.first + op.current_len(config),
        op.advanced(config).address + op.advanced(config).remaining == op.address + op.remaining,
        op.advanced(config).remaining < op.remaining,
{
    if op.kind is Erase {
        lemma_positive_multiple_is_large(op.remaining as int, config.erase_size as int);
    } else {
        let p = config.page_size as int;
        assert(0 <= op.address as int % p < p) by (nonlinear_arith)
            requires
                p > 0,
        ;
    }
}

/// The flash is only erased or programmed right after it confirmed that writing is enabled.
pub proof fn commands_follow_a_latched_write_enable(config: Config, op: FlashOperation, status: u8)
    requires
        op.wf(config),
    ensures
        op.after(config, status).1 matches FlashAction::Send(command) && (command is Erase
            || command is Program) ==> op.phase is Latch && (status / 2) % 2 == 1,
{
}

/// An operation succeeds only when nothing is left to do.
pub proof fn success_means_all_done(config: Config, op: FlashOperation, status: u8)
    requires
        op.wf(config),
    ensures
        op.after(config, status).1 == FlashAction::Finish(Ok(())) ==> op.after(
            config,
            status,
        ).0.remaining == 0,
{
}

} // verus!
