use embassy_zynq7000::cache::{
    clean_data_cache_range, invalidate_data_cache_range, AlignmentError, CacheOp, DmaCache, LineOp,
};
use embassy_zynq7000::hal::devcfg::{
    configure_bitstream_non_secure, validate_bitstream, BitstreamLoadError, Devcfg, DevcfgOp,
    Interrupt, LoadStart, PcapConfig, UnalignedAddrError,
};
use embassy_zynq7000::hal::dma::cache_maintenance_range;
use embassy_zynq7000::hal::reset::{
    clear_reset_status_value, reboot_system, set_apu_watchdog_reset_target, soft_reset_status_value,
    ApuWatchdogTarget, Cpu, RebootOp, RebootStatus, WatchdogResetTargets,
};
use embassy_zynq7000::hal::sd::adma::{Adma2DescriptorTable, ATTR_END, ATTR_TRANSFER, ATTR_VALID};
use embassy_zynq7000::hal::watchdog::{
    Watchdog, WatchdogConfig, WatchdogMode, WatchdogOp, WatchdogTimeout,
};
use embassy_zynq7000::hal::xadc::{
    prepare_noop_command, prepare_read_command, Channel, Error, RawRead, ReadAction, Sample, Xadc,
    XadcOp,
};
use embassy_zynq7000::init::{init, InitStep};
use embassy_zynq7000::l2_cache::{init_with_defaults, L2CacheOp};
use embassy_zynq7000::pac::xadc::{
    CommandFifo, DataFifo, InterruptStatus, MiscStatus, INTERRUPT_ACK_MASK, XADC_BASE_ADDR,
};
use embassy_zynq7000::clocks::{ArmClocks, Clocks, ClockReadError, IoClocks};
use embassy_zynq7000::{Config, Hertz, InitError, InterruptConfig, L2CacheMode, LevelShifterConfig};

#[test]
fn empty_bitstream_is_valid_even_if_pointer_is_not_dma_aligned() {
    assert!(validate_bitstream(1, 0).is_ok());
}

#[test]
fn cache_range_rounds_to_cache_line_boundaries() {
    assert_eq!(
        embassy_zynq7000::hal::devcfg::cache_maintenance_range(0x1043, 1),
        (0x1040, 32)
    );
    assert_eq!(
        embassy_zynq7000::hal::devcfg::cache_maintenance_range(0x1043, 64),
        (0x1040, 96)
    );
}

#[test]
fn empty_range_is_unchanged() {
    assert_eq!(cache_maintenance_range(0x1234, 0), (0x1234, 0));
}

#[test]
fn rounds_down_start_and_up_end() {
    assert_eq!(cache_maintenance_range(0x1043, 3), (0x1040, 32));
    assert_eq!(cache_maintenance_range(0x1043, 64), (0x1040, 96));
}

#[test]
fn clear_reset_status_value_preserves_the_register_image() {
    let status = RebootStatus::new_with_raw_value(0xDEAD_BEEF);
    assert_eq!(clear_reset_status_value(status).raw_value(), 0xDEAD_BEEF);
}

#[test]
fn soft_reset_status_value_applies_the_existing_workaround_mask() {
    let status = RebootStatus::new_with_raw_value(0xFFFF_FFFF);
    assert_eq!(soft_reset_status_value(status).raw_value(), 0xF0FF_FFFF);
}

#[test]
fn reboot_writes_the_status_before_the_reset() {
    let ops = reboot_system(RebootStatus::new_with_raw_value(0xFFFF_FFFF));
    let status = ops
        .iter()
        .position(|op| {
            *op == RebootOp::WriteRebootStatus(RebootStatus::new_with_raw_value(0xF0FF_FFFF))
        })
        .unwrap();
    let reset = ops.iter().position(|op| *op == RebootOp::SetSoftReset).unwrap();
    assert!(status < reset);
    let targets = WatchdogResetTargets {
        apu_wdt_0_reset_target: ApuWatchdogTarget::System,
        apu_wdt_1_reset_target: ApuWatchdogTarget::System,
    };
    assert_eq!(
        set_apu_watchdog_reset_target(targets, Cpu::Cpu1, ApuWatchdogTarget::AssociatedCpu),
        WatchdogResetTargets {
            apu_wdt_1_reset_target: ApuWatchdogTarget::AssociatedCpu,
            ..targets
        }
    );
}

fn no_interrupt() -> Interrupt {
    Interrupt {
        dma_illegal_command: false,
        dma_queue_overflow: false,
        inconsistent_pcap_to_dma_transfer_len: false,
        axi_write_timeout: false,
        axi_write_response_error: false,
        axi_read_timeout: false,
        axi_read_response_error: false,
        hmac_error: false,
        seu_error: false,
        pl_power_loss_por_b_low: false,
        pl_config_controller_under_reset: false,
        dma_done: false,
        pl_programming_done: false,
    }
}

#[test]
fn bitstream_transfer_starts_with_words_and_ends_with_an_outcome() {
    assert_eq!(validate_bitstream(0x1002, 8), Err(BitstreamLoadError::UnalignedAddress(0x1002)));
    assert_eq!(validate_bitstream(0x1000, 7), Err(BitstreamLoadError::UnalignedWordLen(7)));
    let devcfg = Devcfg::new();
    match devcfg.load_bitstream_non_secure(PcapConfig::default(), 0x1000, 64, true) {
        Ok(LoadStart::Transfer(ops)) => {
            assert!(ops.contains(&DevcfgOp::WriteDmaSourceLen(16)));
        },
        _ => panic!("the bitstream is aligned"),
    }
    assert_eq!(devcfg.poll_transfer(no_interrupt()), None);
    let cases = [
        (Interrupt { dma_illegal_command: true, ..no_interrupt() }, BitstreamLoadError::DmaIllegalCommand),
        (Interrupt { dma_queue_overflow: true, ..no_interrupt() }, BitstreamLoadError::DmaQueueOverflow),
        (
            Interrupt { inconsistent_pcap_to_dma_transfer_len: true, ..no_interrupt() },
            BitstreamLoadError::TransferLengthMismatch,
        ),
        (Interrupt { axi_write_timeout: true, ..no_interrupt() }, BitstreamLoadError::AxiWriteTimeout),
        (Interrupt { axi_write_response_error: true, ..no_interrupt() }, BitstreamLoadError::AxiWriteResponseError),
        (Interrupt { axi_read_timeout: true, ..no_interrupt() }, BitstreamLoadError::AxiReadTimeout),
        (Interrupt { axi_read_response_error: true, ..no_interrupt() }, BitstreamLoadError::AxiReadResponseError),
        (Interrupt { hmac_error: true, ..no_interrupt() }, BitstreamLoadError::HmacError),
        (Interrupt { seu_error: true, ..no_interrupt() }, BitstreamLoadError::SeuError),
        (Interrupt { pl_power_loss_por_b_low: true, ..no_interrupt() }, BitstreamLoadError::PlPowerLoss),
        (
            Interrupt { pl_config_controller_under_reset: true, ..no_interrupt() },
            BitstreamLoadError::PlConfigurationControllerReset,
        ),
    ];
    for (status, error) in cases {
        assert_eq!(devcfg.poll_transfer(status), Some(Err(error)));
    }
    let done = Interrupt { dma_done: true, pl_programming_done: true, ..no_interrupt() };
    assert_eq!(devcfg.poll_transfer(done).unwrap().unwrap().interrupt_status, done);
    assert!(matches!(
        configure_bitstream_non_secure(true, 0x1002, 8, true),
        Err(UnalignedAddrError::Address(0x1002))
    ));
    assert!(matches!(
        configure_bitstream_non_secure(true, 0x1000, 7, true),
        Err(UnalignedAddrError::Length(7))
    ));
    assert_eq!(
        UnalignedAddrError::from(BitstreamLoadError::HmacError),
        UnalignedAddrError::Transfer(BitstreamLoadError::HmacError)
    );
}

#[test]
fn only_a_transfer_needs_the_cache() {
    let config = PcapConfig { init_pl: false, rate_enable: false };
    let devcfg = Devcfg::new();
    match devcfg.load_bitstream_non_secure(config, 0xFFFF_FFFF, 0, false) {
        Ok(LoadStart::Done(status)) => assert_eq!(status.interrupt_status, no_interrupt()),
        other => panic!("unexpected start: {other:?}"),
    }
    assert!(matches!(
        devcfg.load_bitstream_non_secure(config, 0xFFFF_FFF1, 64, false),
        Err(BitstreamLoadError::UnalignedAddress(0xFFFF_FFF1))
    ));
    assert!(matches!(
        configure_bitstream_non_secure(false, 0xFFFF_FFC0, 6, false),
        Err(UnalignedAddrError::Length(6))
    ));
    assert!(matches!(
        configure_bitstream_non_secure(false, 0xFFFF_FFFF, 0, false),
        Ok(LoadStart::Done(_))
    ));
}

#[test]
fn cache_maintenance_checks_its_range() {
    assert_eq!(clean_data_cache_range(false, 0x1000, 32), Err(AlignmentError::Unavailable));
    assert_eq!(clean_data_cache_range(true, 0x1001, 32), Err(AlignmentError::Unaligned));
    assert_eq!(invalidate_data_cache_range(true, 0x1000, 31), Err(AlignmentError::Unaligned));
    let ops = clean_data_cache_range(true, 0x1000, 64).unwrap();
    assert!(ops.contains(&CacheOp::Line { op: LineOp::L1Clean, addr: 0x1020 }));
    assert!(!ops.contains(&CacheOp::Line { op: LineOp::L1Clean, addr: 0x1040 }));
    let line = |op, addr| CacheOp::Line { op, addr };
    assert_eq!(
        ops,
        vec![
            CacheOp::Dsb,
            line(LineOp::L1Clean, 0x1000),
            line(LineOp::L1Clean, 0x1020),
            CacheOp::Dsb,
            line(LineOp::L2CleanInvalidate, 0x1000),
            line(LineOp::L2CleanInvalidate, 0x1020),
            CacheOp::SyncL2,
            CacheOp::Fence,
            line(LineOp::L1CleanInvalidate, 0x1000),
            line(LineOp::L1CleanInvalidate, 0x1020),
            CacheOp::Dsb,
        ]
    );
    let mut cache = DmaCache::new();
    assert!(!cache.dma_cache_ready());
    cache.mark_dma_cache_ready();
    assert!(cache.dma_cache_ready());
}

#[test]
fn descriptor_table_splits_long_buffers() {
    let mut table = Adma2DescriptorTable::new();
    table.configure(0x10_0000, 65_536 + 512);
    assert_eq!(table.entries[0].length, 0);
    assert_eq!(table.entries[0].address, 0x10_0000);
    assert_eq!(table.entries[0].attribute, ATTR_TRANSFER | ATTR_VALID);
    assert_eq!(table.entries[1].length, 512);
    assert_eq!(table.entries[1].address, 0x11_0000);
    assert_eq!(table.entries[1].attribute, ATTR_TRANSFER | ATTR_VALID | ATTR_END);
}

#[test]
fn watchdog_feeds_with_its_last_timeout() {
    let mut watchdog = Watchdog::new();
    let timeout = WatchdogTimeout::from_raw(5_000);
    let ops = watchdog.start(WatchdogConfig { mode: WatchdogMode::Watchdog, ..WatchdogConfig::new(timeout) });
    assert_eq!(ops[0], WatchdogOp::WriteLoad(5_000));
    assert_eq!(watchdog.feed(), WatchdogOp::WriteLoad(5_000));
    assert_eq!(watchdog.last_timeout().raw(), 5_000);
    let ops = watchdog.disable();
    let first = ops.iter().position(|op| *op == WatchdogOp::WriteDisable(0x1234_5678)).unwrap();
    let second = ops.iter().position(|op| *op == WatchdogOp::WriteDisable(0x8765_4321)).unwrap();
    assert!(first < second);
}

#[test]
fn ack_all_sets_all_interrupt_bits() {
    assert_eq!(InterruptStatus::ack_all().raw_value(), INTERRUPT_ACK_MASK);
}

#[test]
fn ack_from_masks_out_reserved_bits() {
    let status = InterruptStatus::new_with_raw_value(u32::MAX);
    assert_eq!(
        InterruptStatus::ack_from(status).raw_value(),
        INTERRUPT_ACK_MASK
    );
}

const FULL: u32 = 1 << 11;
const DRAINED: u32 = 1 << 10;
const NO_DATA: u32 = 1 << 8;

fn status(bits: u32) -> MiscStatus {
    MiscStatus::new_with_raw_value(bits)
}

#[test]
fn monitor_read_drops_the_stale_word() {
    let mut xadc = Xadc::new(XADC_BASE_ADDR);
    let mut read: RawRead = xadc.read_voltage(Channel::VccBram);
    assert_eq!(read.step(status(0)), ReadAction::Write(CommandFifo::new_with_raw_value(0x0C06_0000)));
    assert_eq!(read.step(status(0)), ReadAction::Poll);
    assert_eq!(read.step(status(DRAINED)), ReadAction::Poll);
    assert_eq!(read.step(status(NO_DATA)), ReadAction::Poll);
    assert_eq!(read.step(status(0)), ReadAction::DropWord);
    assert_eq!(read.step(status(0)), ReadAction::Write(CommandFifo::new_with_raw_value(0)));
    assert_eq!(read.step(status(DRAINED)), ReadAction::Poll);
    assert_eq!(read.step(status(0)), ReadAction::TakeWord);
    let sample = read.finish(DataFifo::new_with_raw_value(0x1234_ABCD));
    assert_eq!(sample, Sample::from_raw(0xABCD));
    assert_eq!(sample.adc_code(), 0xABC);
    assert_eq!(prepare_read_command(1), 0x0C01_0000);
    assert_eq!(prepare_noop_command(), 0);
}

#[test]
fn monitor_read_gives_up() {
    let mut xadc = Xadc::new(XADC_BASE_ADDR);
    let mut read = xadc.read_temperature();
    assert_eq!(read.step(status(FULL)), ReadAction::Fail(Error::CommandFifoFull));
    let mut read = xadc.read_temperature();
    read.step(status(0));
    for _ in 0..9_999 {
        assert_eq!(read.step(status(0)), ReadAction::Poll);
    }
    assert_eq!(read.step(status(0)), ReadAction::Fail(Error::CommandFifoFull));
    let mut read = xadc.read_temperature();
    read.step(status(0));
    read.step(status(DRAINED));
    for _ in 0..9_999 {
        assert_eq!(read.step(status(NO_DATA)), ReadAction::Poll);
    }
    assert_eq!(read.step(status(NO_DATA)), ReadAction::Fail(Error::DataFifoEmpty));
}

#[test]
fn monitor_is_reset_and_enabled() {
    let ops = Xadc::new(XADC_BASE_ADDR).init();
    assert_eq!(ops[0], XadcOp::ModifyReset(true));
    assert_eq!(ops[1], XadcOp::ModifyReset(false));
    match ops[2] {
        XadcOp::WriteConfig(config) => {
            assert_eq!(config.raw_value(), 0x8000_0114);
            assert!(config.enable());
            assert_eq!(config.inter_packet_gap(), 20);
            assert_eq!(config.tck_rate(), 1);
        },
        _ => panic!("the configuration follows the reset"),
    }
    assert_eq!(ops[3], XadcOp::WriteInterruptStatus(InterruptStatus::ack_all()));
}

fn system_config() -> Config {
    Config {
        ps_clock_frequency: Hertz::from_raw(33_333_300),
        l2_cache_mode: L2CacheMode::Initialize,
        level_shifter_config: Some(LevelShifterConfig { raw: 0xF }),
        interrupt_config: Some(InterruptConfig::AllInterruptsToCpu0),
    }
}

#[test]
fn initialization_enables_interrupts_last() {
    let hz = Hertz::from_raw(100_000_000);
    let clocks = Clocks {
        arm_clocks: ArmClocks { cpu_1x_clk: hz, cpu_3x2x_clk: hz },
        io_clocks: IoClocks {
            io_pll_clk: hz,
            arm_pll_clk: hz,
            ddr_pll_clk: hz,
            sdio_clk: hz,
            uart_clk: hz,
        },
    };
    let steps = init(system_config(), Ok(clocks), true).unwrap();
    assert_eq!(steps.last(), Some(&InitStep::EnableCpuInterrupts));
    assert!(steps.contains(&InitStep::InitializeL2Cache));
    assert!(steps.contains(&InitStep::MarkDmaCacheReady));
    assert_eq!(
        init(system_config(), Ok(clocks), false).err(),
        Some(InitError::PeripheralsAlreadyTaken)
    );
    assert_eq!(
        init(system_config(), Err(ClockReadError::PllFeedbackZero), true).err(),
        Some(InitError::Clocks(ClockReadError::PllFeedbackZero))
    );
    let ops = init_with_defaults();
    assert_eq!(ops.last(), Some(&L2CacheOp::WriteEnable(true)));
}
