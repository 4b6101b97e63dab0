use embassy_zynq7000::gpio::IoType;
use embassy_zynq7000::i2c::{
    calculate_divisors, calculate_i2c_speed, check_and_handle_rx_errors, check_and_handle_tx_errors,
    check_async_read, generate_stop_for_index, read_completes_immediately, ClockConfig as I2cClockConfig,
    Control, ControlUpdate, Direction, ErrorKind, I2cAsyncContext, I2cError, I2cId, I2cOp,
    I2cRxError, I2cSpeed, I2cTxError, InterruptEnd, InterruptStatus, InterruptStep,
    NoAcknowledgeSource, ReadStart, ReadTransfer, TxCheck,
    TxStep, WriteTransfer,
};
use embassy_zynq7000::qspi::{
    linear_mode_config_for_common_devices, program_word, spi_mode_const_to_cpol_cpha,
    validate_write_size, AddressWidth, BaudRateConfig, BaudRateDivisor, ClockCalculationError,
    ClockConfig, Config, DeviceConfigs, Error, FlashAction, FlashCommand, InstructionCode,
    LinearConfigTable, LinearQspiConfig, NorFlashErrorKind, Qspi, QspiDeviceCombination, QspiVendor,
    RxPoll, RxWait, SpiClockPhase, SpiClockPolarity, SpiMode, VendorConfigs,
};
use embassy_zynq7000::clocks::SrcSelIo;
use embassy_zynq7000::ttc::{
    calc_prescaler_reg_and_interval_ticks, DutyCycleError, FrequencyError, Pwm, Ttc, TtcOp,
};
use embassy_zynq7000::Hertz;

fn quiet() -> InterruptStatus {
    InterruptStatus {
        arbitration_lost: false,
        rx_underflow: false,
        tx_overflow: false,
        rx_overflow: false,
        slave_ready: false,
        timeout: false,
        nack: false,
        data: false,
        complete: false,
    }
}

#[test]
fn stop_generation_only_releases_on_last_operation() {
    assert!(!generate_stop_for_index(0, 3));
    assert!(!generate_stop_for_index(1, 3));
    assert!(generate_stop_for_index(2, 3));
}

#[test]
fn async_context_defaults_to_stop_generation() {
    assert!(I2cAsyncContext::new().generate_stop);
}

#[test]
fn zero_length_blocking_read_completes_immediately() {
    assert!(read_completes_immediately(0));
    assert!(!read_completes_immediately(1));
}

#[test]
fn asynchronous_write_refills_the_fifo_until_complete() {
    let quiet = InterruptStatus {
        arbitration_lost: false,
        rx_underflow: false,
        tx_overflow: false,
        rx_overflow: false,
        slave_ready: false,
        timeout: false,
        nack: false,
        data: true,
        complete: false,
    };
    let mut context = I2cAsyncContext::new();
    let (before, after) = context.new_write(0x50, 0x1000, 20, true);
    assert_eq!(
        before[1],
        I2cOp::ModifyControl(ControlUpdate::ConfigureWrite { generate_stop: true })
    );
    assert_eq!(after[2], I2cOp::WriteAddress(0x50));
    assert_eq!(context.fill_tx_fifo(0), (0, 16));
    assert!(matches!(context.on_interrupt(quiet), InterruptStep::Transmit));
    let (first, count, end) = context.refill(quiet, 0);
    assert_eq!((first, count), (16, 4));
    assert!(matches!(end, InterruptEnd::Continue(_)));
    assert_eq!(context.poll(false), None);
    let done = InterruptStatus { complete: true, ..quiet };
    assert!(matches!(context.on_interrupt(done), InterruptStep::Transmit));
    let (first, count, end) = context.refill(done, 4);
    assert_eq!((first, count), (20, 0));
    assert!(matches!(end, InterruptEnd::Finished(_)));
    assert_eq!(context.poll(true), Some(Ok(())));
}

#[test]
fn divisors_reach_the_bus_speed() {
    let cpu = Hertz::from_raw(111_111_000);
    let config = calculate_divisors(cpu, I2cSpeed::Normal100kHz).unwrap();
    let speed = calculate_i2c_speed(cpu, config).raw();
    assert!(speed <= 100_000);
    assert!(speed > 90_000);
    assert_eq!(
        calculate_i2c_speed(Hertz::from_raw(22_000_000), I2cClockConfig::new(1, 9)),
        Hertz::from_raw(50_000)
    );
    assert!(calculate_divisors(Hertz::from_raw(u32::MAX), I2cSpeed::HighSpeed400KHz).is_err());
}

#[test]
fn bus_faults_are_told_apart() {
    assert_eq!(
        check_and_handle_tx_errors(InterruptStatus { tx_overflow: true, ..quiet() }),
        TxCheck::Fault(I2cTxError::TxOverflow)
    );
    assert_eq!(
        check_and_handle_tx_errors(InterruptStatus { arbitration_lost: true, ..quiet() }),
        TxCheck::Fault(I2cTxError::ArbitrationLoss)
    );
    assert_eq!(
        check_and_handle_tx_errors(InterruptStatus { timeout: true, ..quiet() }),
        TxCheck::Fault(I2cTxError::Timeout)
    );
    assert_eq!(
        check_and_handle_tx_errors(InterruptStatus { nack: true, ..quiet() }),
        TxCheck::Nacked
    );
    assert_eq!(check_and_handle_tx_errors(quiet()), TxCheck::Clear);
    assert_eq!(
        check_and_handle_rx_errors(0, InterruptStatus { rx_underflow: true, ..quiet() }),
        Some(I2cRxError::RxUnderflow)
    );
    assert_eq!(
        check_and_handle_rx_errors(0, InterruptStatus { rx_overflow: true, ..quiet() }),
        Some(I2cRxError::RxOverflow)
    );
    assert_eq!(
        check_and_handle_rx_errors(0, InterruptStatus { nack: true, ..quiet() }),
        Some(I2cRxError::Nack(NoAcknowledgeSource::Address))
    );
    assert_eq!(check_and_handle_rx_errors(0, quiet()), None);
    assert_eq!(I2cError::from(I2cTxError::Timeout), I2cError::Timeout);
    assert_eq!(I2cError::from(I2cRxError::RxOverflow), I2cError::RxOverflow);
    assert_eq!(I2cError::RxOverflow.kind(), ErrorKind::Overrun);
    assert_eq!(
        I2cError::Nack(NoAcknowledgeSource::Data).kind(),
        ErrorKind::NoAcknowledge(NoAcknowledgeSource::Data)
    );
    assert_eq!(check_async_read(256), Err(I2cError::ReadDataLenTooLarge));
    assert_eq!(check_async_read(255), Ok(()));
}

#[test]
fn write_transfer_refills_the_fifo() {
    let (mut transfer, _) = WriteTransfer::new(0x50, 20, true);
    let chunk = transfer.fill(0);
    assert_eq!((chunk.first, chunk.count, chunk.start), (0, 16, Some(0x50)));
    assert_eq!(transfer.poll_busy(true, quiet()), TxStep::Wait);
    assert_eq!(transfer.poll_busy(false, quiet()), TxStep::Refill);
    let chunk = transfer.fill(0);
    assert_eq!((chunk.first, chunk.count, chunk.start), (16, 4, None));
    assert_eq!(transfer.poll_busy(false, quiet()), TxStep::Finish);
    assert_eq!(
        transfer.poll_busy(true, InterruptStatus { timeout: true, ..quiet() }),
        TxStep::Fault(TxCheck::Fault(I2cTxError::Timeout))
    );
}

#[test]
fn oversized_reads_are_refused() {
    assert!(matches!(
        ReadTransfer::start(0x50, 256, true),
        ReadStart::Refused(_, I2cRxError::ReadDataLenTooLarge)
    ));
    assert!(matches!(ReadTransfer::start(0x50, 0, true), ReadStart::Done));
    assert!(matches!(ReadTransfer::start(0x50, 255, true), ReadStart::Running(_, _)));
    assert_eq!(I2cId::I2c1.index(), 1);
}

#[test]
fn blocking_read_stores_bytes_in_order() {
    let mut transfer = match ReadTransfer::start(0x50, 3, true) {
        ReadStart::Running(_, transfer) => transfer,
        _ => panic!("three bytes can be read"),
    };
    let mut data = [0u8; 3];
    for (count, byte) in [7u8, 8, 9].into_iter().enumerate() {
        assert_eq!(transfer.after_drain(3 - count), (true, false));
        transfer.store(&mut data, byte);
    }
    assert_eq!(data, [7, 8, 9]);
    assert_eq!(transfer.after_drain(0), (true, true));
    let quiet = quiet();
    assert_eq!(transfer.poll_complete(true, quiet), Some(Ok(())));
    assert_eq!(transfer.poll_complete(false, quiet), None);
    assert_eq!(
        transfer.poll_complete(false, InterruptStatus { nack: true, ..quiet }),
        Some(Err(I2cRxError::Nack(NoAcknowledgeSource::Data)))
    );
}

#[test]
fn stop_releases_the_bus() {
    let control = Control {
        div_a: 1,
        div_b: 2,
        clear_fifo: false,
        slv_mon: false,
        hold_bus: true,
        acken: true,
        addressing: true,
        master: true,
        dir: Direction::Receiver,
    };
    assert!(!ControlUpdate::ConfigureWrite { generate_stop: true }.apply(control).hold_bus);
    assert!(ControlUpdate::ConfigureWrite { generate_stop: false }.apply(control).hold_bus);
    assert!(!ControlUpdate::ClearHold.apply(control).hold_bus);
}

fn linear(num_dummy_bytes: u8, instruction_code: InstructionCode) -> LinearQspiConfig {
    LinearQspiConfig {
        enable_linear_mode: true,
        both_memories: false,
        separate_memory_bus: false,
        upper_memory_page: false,
        mode_enable: false,
        mode_on: false,
        mode_bits: 0,
        num_dummy_bytes,
        instruction_code,
    }
}

fn devices(num_dummy_bytes: u8, code: InstructionCode) -> DeviceConfigs {
    DeviceConfigs {
        one: linear(num_dummy_bytes, code),
        two: LinearQspiConfig { both_memories: true, ..linear(num_dummy_bytes, code) },
    }
}

fn table() -> LinearConfigTable {
    LinearConfigTable {
        rd: devices(0, InstructionCode::Read),
        fast_rd: devices(1, InstructionCode::FastRead),
        dual_out_fast_rd: devices(1, InstructionCode::FastReadDualOutput),
        quad_out_fast_rd: devices(1, InstructionCode::FastReadQuadOutput),
        winbond_spansion: VendorConfigs {
            dual_io_fast_rd: devices(0, InstructionCode::FastReadDualIo),
            quad_io_fast_rd: devices(2, InstructionCode::FastReadQuadIo),
        },
        micron: VendorConfigs {
            dual_io_fast_rd: devices(1, InstructionCode::FastReadDualIo),
            quad_io_fast_rd: devices(4, InstructionCode::FastReadQuadIo),
        },
    }
}

fn spansion() -> Config {
    Config::spansion_s25fl256s(
        ClockConfig::new(SrcSelIo::IoPll, 1, BaudRateConfig::WithLoopback),
        IoType::LvCmos33,
        table().rd.one,
    )
}

#[test]
fn spansion_config_uses_32bit_addressing() {
    let cfg = spansion();
    assert_eq!(cfg.address_width, AddressWidth::Bits32);
}

#[test]
fn common_linear_config_uses_vendor_specific_quad_io_dummy_cycles() {
    let table = table();
    let config = linear_mode_config_for_common_devices(
        &table,
        QspiDeviceCombination {
            vendor: QspiVendor::Micron,
            operating_mode: InstructionCode::FastReadQuadIo,
            two_devices: false,
        },
    );
    assert_eq!(config, table.micron.quad_io_fast_rd.one);
}

#[test]
fn address_width_reports_expected_command_words() {
    assert_eq!(AddressWidth::Bits24.command_words(), 1);
    assert_eq!(AddressWidth::Bits32.command_words(), 2);
}

#[test]
fn calculate_with_ref_clk_rejects_zero_target_frequency() {
    assert!(matches!(
        ClockConfig::calculate_with_ref_clk(
            Hertz::from_raw(100_000_000),
            SrcSelIo::IoPll,
            Hertz::from_raw(0),
            BaudRateConfig::WithLoopback,
        ),
        Err(ClockCalculationError::ZeroTargetClock)
    ));
}

#[test]
fn reference_divisor_rounds_up_and_is_bounded() {
    let config = ClockConfig::calculate_with_ref_clk(
        Hertz::from_raw(1_000_000_000),
        SrcSelIo::IoPll,
        Hertz::from_raw(300_000_000),
        BaudRateConfig::WithoutLoopback(BaudRateDivisor::Div4),
    )
    .unwrap();
    assert_eq!(config.ref_clk_div, 4);
    assert_eq!(config.baud_rate_config.baud_rate_divisor(), BaudRateDivisor::Div4);
    assert_eq!(
        ClockConfig::calculate_with_ref_clk(
            Hertz::from_raw(1_000_000_000),
            SrcSelIo::IoPll,
            Hertz::from_raw(1_000_000),
            BaudRateConfig::WithLoopback,
        ),
        Err(ClockCalculationError::RefDivOutOfRange)
    );
}

#[test]
fn non_word_write_size_is_rejected() {
    assert_eq!(validate_write_size::<2>(), Err(Error::InvalidWriteSize));
    assert_eq!(validate_write_size::<4>(), Ok(()));
    assert!(matches!(Qspi::<2, 65536>::new_blocking(spansion()), Err(Error::InvalidWriteSize)));
}

#[test]
fn spi_modes_are_polarity_and_phase() {
    assert_eq!(
        spi_mode_const_to_cpol_cpha(SpiMode::Mode0),
        (SpiClockPolarity::QuiescentLow, SpiClockPhase::ActiveOutsideOfWord)
    );
    assert_eq!(
        spi_mode_const_to_cpol_cpha(SpiMode::Mode3),
        (SpiClockPolarity::QuiescentHigh, SpiClockPhase::InactiveOutsideOfWord)
    );
}

fn flash() -> (Qspi<4, 262144>, Config) {
    let config = Config { erase_size: 262144, ..spansion() };
    match Qspi::<4, 262144>::new_blocking(config) {
        Ok((flash, _)) => (flash, config),
        Err(_) => panic!("the configuration is valid"),
    }
}

#[test]
fn flash_ranges_are_checked() {
    let (mut flash, config) = flash();
    let capacity = config.capacity as u32;
    assert!(matches!(flash.blocking_erase(0, capacity + 262144), Err(Error::OutOfRange)));
    assert!(matches!(flash.blocking_erase(1, 262144), Err(Error::UnalignedErase)));
    assert!(matches!(flash.blocking_write(2, 4), Err(Error::UnalignedWrite)));
    assert!(matches!(flash.blocking_write(0, 3), Err(Error::UnalignedWrite)));
    assert!(matches!(flash.blocking_read(capacity, 1), Err(Error::OutOfRange)));
    let (_, address) = flash.blocking_read(16, 4).unwrap();
    assert_eq!(address, 0xFC00_0010);
    assert_eq!(Error::UnalignedWrite.kind(), NorFlashErrorKind::OutOfBounds);
    assert_eq!(Error::OutOfRange.kind(), NorFlashErrorKind::OutOfBounds);
    assert_eq!(Error::BusyTimeout.kind(), NorFlashErrorKind::Other);
}

#[test]
fn erasing_does_not_look_at_pages() {
    let config = Config { erase_size: 262144, page_size: 0, ..spansion() };
    let flash = match Qspi::<4, 262144>::new_blocking(config) {
        Ok((flash, _)) => flash,
        Err(_) => panic!("the configuration is valid"),
    };
    let mut operation = flash.blocking_erase(262144, 524288).unwrap();
    assert_eq!(operation.step(&config, Ok(0)), FlashAction::Send(FlashCommand::WriteEnable));
    assert_eq!(operation.step(&config, Ok(0)), FlashAction::Send(FlashCommand::ReadStatus));
    assert_eq!(
        operation.step(&config, Ok(2)),
        FlashAction::Send(FlashCommand::Erase { address: 262144 })
    );
}

#[test]
fn programming_walks_page_by_page() {
    let (flash, config) = flash();
    let page = config.page_size;
    let mut operation = flash.blocking_write((page - 8) as u32, 12).unwrap();
    let mut programs = Vec::new();
    let mut reply = Ok(0u8);
    for _ in 0..40 {
        match operation.step(&config, reply) {
            FlashAction::Send(FlashCommand::Program { address, first, len }) => {
                programs.push((address, first, len));
                reply = Ok(0);
            },
            FlashAction::Send(FlashCommand::ReadStatus) => {
                // Write enable is latched, and the flash is ready.
                reply = Ok(0x02);
            },
            FlashAction::Send(_) => reply = Ok(0),
            FlashAction::Finish(result) => {
                assert_eq!(result, Ok(()));
                break;
            },
        }
    }
    assert_eq!(
        programs,
        vec![((page - 8) as u32, 0, 8), (page as u32, 8, 4)]
    );
}

#[test]
fn unlatched_write_enable_fails() {
    let (flash, config) = flash();
    let mut operation = flash.blocking_erase(0, 262144).unwrap();
    let mut reply = Ok(0u8);
    let mut result = None;
    for _ in 0..10 {
        match operation.step(&config, reply) {
            FlashAction::Send(_) => reply = Ok(0),
            FlashAction::Finish(outcome) => {
                result = Some(outcome);
                break;
            },
        }
    }
    assert_eq!(result, Some(Err(Error::WriteEnableFailed)));
    let mut operation = flash.blocking_erase(0, 262144).unwrap();
    operation.step(&config, Ok(0));
    assert_eq!(
        operation.step(&config, Err(Error::CommandTimeout)),
        FlashAction::Finish(Err(Error::CommandTimeout))
    );
}

#[test]
fn reply_wait_gives_up() {
    let mut wait = RxWait::new(1);
    assert_eq!(wait.poll(None), RxPoll::Again);
    assert_eq!(wait.poll(Some(7)), RxPoll::Done(7));
    let mut wait = RxWait::new(1);
    let mut polls = 0;
    loop {
        match wait.poll(None) {
            RxPoll::Again => polls += 1,
            RxPoll::TimedOut => break,
            RxPoll::Done(_) => panic!("nothing was received"),
        }
    }
    assert!(polls >= 999_998);
    assert_eq!(program_word(&[1, 2, 3, 4, 5], 1), 0x0504_0302);
}

#[test]
fn prescaler_calc_rejects_zero_or_too_fast_frequencies() {
    assert!(matches!(
        calc_prescaler_reg_and_interval_ticks(Hertz::from_raw(1_000_000), Hertz::from_raw(1_000_000)),
        Err(FrequencyError::OutOfRange)
    ));
    assert!(matches!(
        calc_prescaler_reg_and_interval_ticks(Hertz::from_raw(1_000_000), Hertz::from_raw(2_000_000)),
        Err(FrequencyError::OutOfRange)
    ));
}

#[test]
fn prescaler_calc_adds_prescaler_when_needed() {
    let (prescaler, ticks) =
        calc_prescaler_reg_and_interval_ticks(Hertz::from_raw(100_000_000), Hertz::from_raw(10))
            .unwrap();

    assert_eq!(prescaler, Some(7));
    assert_eq!(ticks, 39_062);
}

#[test]
fn prescaler_calc_reports_unrepresentable_range() {
    assert!(matches!(
        calc_prescaler_reg_and_interval_ticks(Hertz::from_raw(1_000_000_000), Hertz::from_raw(1)),
        Err(FrequencyError::OutOfRange)
    ));
}

#[test]
fn interval_that_fits_needs_no_prescaler() {
    assert_eq!(
        calc_prescaler_reg_and_interval_ticks(Hertz::from_raw(50_000_000), Hertz::from_raw(1_000)),
        Ok((None, 50_000))
    );
}

#[test]
fn duty_cycle_is_a_share_of_the_interval() {
    let (pwm, _) =
        Pwm::new_generic(Ttc::new().ch0, Hertz::from_raw(50_000_000), Hertz::from_raw(1_000))
            .unwrap();
    assert_eq!(
        Pwm::new_generic(Ttc::new().ch0, Hertz::from_raw(50_000_000), Hertz::from_raw(0)).err(),
        Some(FrequencyError::Zero)
    );
    assert_eq!(pwm.max_duty_cycle(0x1_C350), 0xC350);
    assert_eq!(pwm.set_duty_cycle_percent(101, 50_000).err(), Some(DutyCycleError::InvalidPercent));
    let ops = pwm.set_duty_cycle_percent(50, 50_000).unwrap();
    assert!(ops.contains(&TtcOp::WriteMatch0(25_000)));
}
