use embassy_zynq7000::chip::Package;
use embassy_zynq7000::clocks::{IoClocks, SrcSelIo};
use embassy_zynq7000::gpio::{AnyPin, IoType};
use embassy_zynq7000::sdmmc::card::{be_u128, CardType, Cid, Csd, CsdVersion};
use embassy_zynq7000::sdmmc::sd::{
    acquire_card, deadline_counter, timeout_elapsed, Acquire, CardAction, Host, Progress, Reply,
    SdCardInfo, StorageDevice,
};
use embassy_zynq7000::sdmmc::{
    bus_1bit_supported, bus_4bit_supported, read_u128_response, AdmaErrorBits, AdmaErrorState,
    AdmaErrorStatus, BusMode, BusPins, ClockControl, ClockUpdate, Command, CommandPoll, Config,
    DmaSelect, Error, HostControl, HostUpdate, InterruptStatus, ResponseErrorBits,
    SdBusVoltageSelect, SdClockDivisor, SdioDivisors, SdioId, Sdmmc, StatusWrapper, TransferPoll,
};
use embassy_zynq7000::cache::AlignmentError;
use embassy_zynq7000::Hertz;

fn io_clocks() -> IoClocks {
    IoClocks {
        io_pll_clk: Hertz::from_raw(1_000_000_000),
        arm_pll_clk: Hertz::from_raw(1_333_000_000),
        ddr_pll_clk: Hertz::from_raw(1_066_000_000),
        sdio_clk: Hertz::from_raw(50_000_000),
        uart_clk: Hertz::from_raw(100_000_000),
    }
}

fn config() -> Config {
    Config::calculate_for_io_clock(
        &io_clocks(),
        SrcSelIo::IoPll,
        Hertz::from_raw(100_000_000),
        Hertz::from_raw(25_000_000),
        IoType::LvCmos33,
    )
    .unwrap()
}

fn driver() -> Sdmmc {
    Sdmmc::new_1bit(SdioId::Sdio0, AnyPin::new(40), AnyPin::new(41), AnyPin::new(42), config()).driver
}

#[test]
fn clock_divisors_stay_below_the_target() {
    let config = config();
    assert_eq!(config.ref_clock_divisor, 10);
    assert_eq!(config.sdio_clock_divisors.divisor_normal, SdClockDivisor::Div4);
    assert_eq!(config.sdio_clock_divisors.divisor_init_phase, SdClockDivisor::Div256);
    assert_eq!(SdClockDivisor::select(3), SdClockDivisor::Div4);
    assert_eq!(SdClockDivisor::select(1000), SdClockDivisor::Div256);
    let divisors = SdioDivisors::calculate(Hertz::from_raw(50_000_000), Hertz::from_raw(50_000_000));
    assert_eq!(divisors.divisor_normal, SdClockDivisor::Div1);
    assert_eq!(
        Config::calculate_for_io_clock(
            &io_clocks(),
            SrcSelIo::IoPll,
            Hertz::from_raw(1_000_000),
            Hertz::from_raw(25_000_000),
            IoType::LvCmos33,
        ),
        None
    );
}

#[test]
fn command_status_is_sorted_out() {
    let sdmmc = driver();
    let done = InterruptStatus { command_complete: true, ..InterruptStatus::zero() };
    assert!(matches!(sdmmc.wait_for_command_complete(done), CommandPoll::Ready(_, _)));
    assert!(matches!(
        sdmmc.wait_for_command_complete(InterruptStatus::zero()),
        CommandPoll::Pending(_)
    ));
    let timeout = StatusWrapper(InterruptStatus {
        command_timeout_error: true,
        ..InterruptStatus::zero()
    });
    assert_eq!(
        sdmmc.command_result(timeout).err(),
        Some(Error::ResponseError(ResponseErrorBits {
            index: false,
            crc: false,
            end_bit: false,
            timeout: true,
        }))
    );
    let crc = InterruptStatus { error_interrupt: true, data_crc_error: true, ..InterruptStatus::zero() };
    assert!(matches!(
        sdmmc.wait_for_transfer_complete(crc),
        TransferPoll::Ready(_, Err(Error::DataError(_)))
    ));
    let adma = InterruptStatus { adma_error: true, ..InterruptStatus::zero() };
    assert!(matches!(sdmmc.wait_for_transfer_complete(adma), TransferPoll::AdmaFailed(_)));
    let status = AdmaErrorStatus {
        length_mismatch_error: true,
        error_state: AdmaErrorState::TransferData,
    };
    assert_eq!(
        sdmmc.adma_failure(status).1,
        Error::AdmaError(AdmaErrorBits {
            length_mismatch: true,
            state: AdmaErrorState::TransferData,
        })
    );
    assert_eq!(Error::from(AlignmentError::Unaligned), Error::CacheAlignment);
    assert_eq!(Error::from(AlignmentError::Unavailable), Error::CacheUnavailable);
}

#[test]
fn transfers_are_checked_before_they_start() {
    let mut sdmmc = driver();
    let ok = sdmmc.prepare_read_transfer(true, 0x10_0000, 1024, 2, 512, 0x20_0000);
    assert_eq!(ok.result, Ok(()));
    assert!(ok.ops.len() > 0);
    assert_eq!(
        sdmmc.prepare_read_transfer(false, 0x10_0000, 1024, 2, 512, 0x20_0000).result,
        Err(Error::CacheUnavailable)
    );
    assert_eq!(
        sdmmc.configure_data_blocks(70_000, 512),
        Err(Error::TooManyBlocks)
    );
}

#[test]
fn long_responses_are_big_endian() {
    let bytes = read_u128_response(&[0x0403_0201, 0x0807_0605, 0x0C0B_0A09, 0x000F_0E0D]);
    assert_eq!(be_u128(&bytes), u128::from_be_bytes(bytes));
    assert_eq!(Cid::from_be_bytes(&bytes).raw, u128::from_be_bytes(bytes));
}

#[test]
fn bus_pins_form_groups() {
    let pins = BusPins { clk: 40, cmd: 41, d0: 42, d1: 43, d2: 44, d3: 45 };
    assert!(bus_4bit_supported(Package::Full, SdioId::Sdio0, pins));
    assert!(!bus_4bit_supported(Package::Full, SdioId::Sdio1, pins));
    assert!(!bus_4bit_supported(Package::Clg225, SdioId::Sdio0, pins));
}

#[test]
fn one_bit_buses_are_the_first_lines_of_a_group() {
    assert!(bus_1bit_supported(Package::Full, SdioId::Sdio0, 40, 41, 42));
    assert!(bus_1bit_supported(Package::Clg225, SdioId::Sdio0, 28, 29, 30));
    assert!(!bus_1bit_supported(Package::Clg225, SdioId::Sdio0, 40, 41, 42));
    assert!(bus_1bit_supported(Package::Full, SdioId::Sdio1, 12, 11, 10));
    assert!(!bus_1bit_supported(Package::Full, SdioId::Sdio1, 10, 11, 12));
    assert!(!bus_1bit_supported(Package::Full, SdioId::Sdio0, 40, 41, 43));
    assert!(!bus_1bit_supported(Package::Full, SdioId::Sdio0, 40, 29, 42));
    assert!(!bus_1bit_supported(Package::Full, SdioId::Sdio0, 255, 0, 1));
}

#[test]
fn clock_updates_change_one_field() {
    let clock = ClockControl {
        software_reset_for_all: false,
        data_timeout_counter_value: 0,
        sdclk_frequency_select: SdClockDivisor::Div1,
        sd_clock_enable: false,
        internal_clock_stable: true,
        internal_clock_enable: false,
    };
    assert_eq!(
        ClockUpdate::SoftwareResetForAll.apply(clock),
        ClockControl { software_reset_for_all: true, ..clock }
    );
    assert_eq!(
        ClockUpdate::SdclkFrequencySelect(SdClockDivisor::Div64).apply(clock),
        ClockControl { sdclk_frequency_select: SdClockDivisor::Div64, ..clock }
    );
    assert_eq!(
        ClockUpdate::InternalClockEnable.apply(clock),
        ClockControl { internal_clock_enable: true, ..clock }
    );
    let on = ClockUpdate::SdClockEnable(true).apply(clock);
    assert_eq!(on, ClockControl { sd_clock_enable: true, ..clock });
    assert_eq!(ClockUpdate::SdClockEnable(false).apply(on), clock);
    assert_eq!(
        ClockUpdate::DataTimeoutCounter(0xE).apply(clock),
        ClockControl { data_timeout_counter_value: 0xE, ..clock }
    );
}

#[test]
fn power_up_selects_voltage_and_dma_and_the_bus_width_keeps_them() {
    let host = HostControl {
        sd_bus_power: false,
        sd_bus_voltage_select: SdBusVoltageSelect::Other(0),
        dma_select: DmaSelect::Other(0),
        bus_width: BusMode::FourBit,
        high_speed_enable: true,
    };
    let powered = HostUpdate::PowerUp.apply(host);
    assert_eq!(
        powered,
        HostControl {
            sd_bus_power: true,
            sd_bus_voltage_select: SdBusVoltageSelect::V3_3,
            dma_select: DmaSelect::Adma2_32Bits,
            bus_width: BusMode::OneBit,
            high_speed_enable: false,
        }
    );
    assert_eq!(
        HostUpdate::BusWidth { mode: BusMode::FourBit, high_speed: true }.apply(powered),
        HostControl { bus_width: BusMode::FourBit, high_speed_enable: true, ..powered }
    );
}

#[test]
fn new_driver_has_an_unused_descriptor_table() {
    for entry in driver().adma_table.entries {
        assert_eq!((entry.attribute, entry.length, entry.address), (0, 0, 0));
    }
}

#[test]
fn deadlines_count_cycles() {
    assert_eq!(deadline_counter(300_000_000, 1_000, 1_000), 300_001_000);
    assert!(timeout_elapsed(10, 10));
    assert!(!timeout_elapsed(9, 10));
}

fn reply(response: u32) -> Result<Reply, Error> {
    Ok(Reply { response, long_response: [0; 16], scr: [0; 8] })
}

fn next(progress: Progress) -> (Acquire, CardAction) {
    match progress {
        Progress::Next { state, action, .. } => (state, action),
        _ => panic!("identification goes on"),
    }
}

#[test]
fn identification_of_a_high_capacity_card() {
    let host = Host { bus_mode: BusMode::FourBit, counter_hz: 300_000_000 };
    assert!(matches!(acquire_card(false), Progress::Failed(Error::NoCard)));
    let (state, action) = next(acquire_card(true));
    assert!(matches!(action, CardAction::Send { command: Command::Cmd0GoIdleMode, .. }));
    let (state, action) = next(state.step(host, &reply(0), 0));
    assert!(matches!(action, CardAction::Send { command: Command::Cmd8SendIfCond, arg: 0x1AA }));
    let (state, action) = next(state.step(host, &reply(0x1AA), 0));
    assert!(matches!(action, CardAction::Send { command: Command::Cmd55AppCmd, .. }));
    let (state, action) = next(state.step(host, &reply(0x120), 0));
    assert!(matches!(action, CardAction::Send { command: Command::Acmd41SendOpCond, .. }));
    let (state, action) = next(state.step(host, &reply(0xC0FF_8000), 0));
    assert!(matches!(action, CardAction::Send { command: Command::Cmd2AllSendCid, .. }));
    let (state, action) = next(state.step(host, &reply(0), 0));
    assert!(matches!(action, CardAction::Send { command: Command::Cmd3SendRelativeAddr, .. }));
    let (state, action) = next(state.step(host, &reply(0xB368_0520), 0));
    assert!(matches!(
        action,
        CardAction::Send { command: Command::Cmd9SendCsd, arg: 0xB368_0000 }
    ));
    // A card description of the second version.
    let csd: [u8; 16] = [
        0x40, 0x0E, 0x00, 0x32, 0x5B, 0x59, 0x00, 0x00, 0x73, 0xA7, 0x7F, 0x80, 0x0A, 0x40, 0x00, 0x01,
    ];
    let answer = Ok(Reply { response: 0, long_response: csd, scr: [0; 8] });
    match state.step(host, &answer, 0) {
        Progress::Next { state, action, .. } => {
            assert!(matches!(action, CardAction::Send { command: Command::Cmd7SelectSdCard, .. }));
            match state {
                Acquire::Select { info } => {
                    assert_eq!(info.csd().version, CsdVersion::V2);
                    assert_eq!(info.card_type(), CardType::SdhcSdxc);
                    assert_eq!(info.rca(), 0xB368);
                },
                _ => panic!("the card is selected"),
            }
        },
        _ => panic!("the description is valid"),
    }
    assert!(matches!(
        state.step(host, &Err(Error::UnexpectedResponse), 0),
        Progress::Failed(Error::UnexpectedResponse)
    ));
}

fn card(card_type: CardType) -> StorageDevice {
    StorageDevice::new_sd_card(SdCardInfo {
        card_type,
        rca: 1,
        cid: Cid { raw: 0 },
        csd: Csd { version: CsdVersion::V2, raw: 0 },
    })
}

#[test]
fn reads_are_split_into_batches() {
    let device = card(CardType::SdhcSdxc);
    let batches = device.read_blocks(100, 5000);
    assert_eq!(batches.len(), 2);
    assert_eq!((batches[0].address, batches[0].first, batches[0].blocks), (100, 0, 4096));
    assert_eq!((batches[1].address, batches[1].first, batches[1].blocks), (4196, 4096, 904));
    assert_eq!(batches[0].command, Command::Cmd18ReadMultipleBlocks);
    assert!(device.read_blocks(100, 0).is_empty());
    assert_eq!(card(CardType::SD1).block_address(3), 1536);
    assert_eq!(device.block_address(3), 3);
    assert_eq!(device.read_block(3).command, Command::Cmd17ReadSingleBlock);
    assert_eq!(device.write_block(3).command, Command::Cmd24WriteBlock);
    assert_eq!(device.status_argument(), 0x1_0000);
}

#[test]
fn programming_ends_in_the_transfer_state() {
    let device = card(CardType::SdhcSdxc);
    assert_eq!(device.wait_for_programming_done(0x900, 0, 100), Some(Ok(())));
    assert_eq!(device.wait_for_programming_done(0xE00, 0, 100), None);
    assert_eq!(
        device.wait_for_programming_done(0xE00, 100, 100),
        Some(Err(Error::ProgrammingTimeout))
    );
}

#[test]
fn operating_conditions_are_asked_for_by_version() {
    let host = Host { bus_mode: BusMode::FourBit, counter_hz: 1000 };
    for (v2, expected) in [(true, 0x5010_0000), (false, 0x1010_0000)] {
        let state = Acquire::OpCondPrefix { v2, deadline: 10 };
        let (state, action) = next(state.step(host, &reply(0x20), 0));
        assert_eq!(
            action,
            CardAction::Send { command: Command::Acmd41SendOpCond, arg: expected }
        );
        // A card that is not up is asked again until the deadline.
        assert!(matches!(
            next(state.step(host, &reply(0), 9)).0,
            Acquire::OpCondPrefix { deadline: 10, .. }
        ));
        assert_eq!(
            state.step(host, &reply(0), 10),
            Progress::Failed(Error::CardInitTimeout)
        );
        let card_type = if v2 { CardType::SD2 } else { CardType::SD1 };
        assert_eq!(
            next(state.step(host, &reply(0x8000_0000), 10)).0,
            Acquire::AllSendCid { card_type }
        );
    }
}

#[test]
fn interface_condition_is_retried_and_checked() {
    let host = Host { bus_mode: BusMode::OneBit, counter_hz: 1000 };
    let timeout = Error::ResponseError(ResponseErrorBits {
        index: false,
        crc: false,
        end_bit: false,
        timeout: true,
    });
    let first = Acquire::IfCond { attempt: 0 };
    let second = next(first.step(host, &Err(timeout), 5)).0;
    assert_eq!(second, Acquire::IfCond { attempt: 1 });
    let third = next(second.step(host, &Err(timeout), 5)).0;
    // The last timeout makes it a card of the first version.
    assert_eq!(
        next(third.step(host, &Err(timeout), 5)).0,
        Acquire::OpCondPrefix { v2: false, deadline: 1005 }
    );
    assert_eq!(
        first.step(host, &Err(Error::NoCard), 5),
        Progress::Failed(Error::NoCard)
    );
    assert_eq!(
        first.step(host, &reply(0x2AA), 5),
        Progress::Failed(Error::UnsupportedVoltage)
    );
    assert_eq!(
        first.step(host, &reply(0x1AB), 5),
        Progress::Failed(Error::UnsupportedCardVersion)
    );
}

#[test]
fn bus_width_follows_the_card_and_the_host() {
    let four = Host { bus_mode: BusMode::FourBit, counter_hz: 1000 };
    let one = Host { bus_mode: BusMode::OneBit, counter_hz: 1000 };
    let info = *card(CardType::SD2).card_info();
    let wide = Ok(Reply { response: 0, long_response: [0; 16], scr: [0, 4, 0, 0, 0, 0, 0, 0] });
    let scr = Acquire::Scr { info };
    let (prefix, _) = next(scr.step(four, &wide, 0));
    assert_eq!(prefix, Acquire::BusWidthPrefix { info });
    assert_eq!(next(scr.step(one, &wide, 0)).0, Acquire::BlockLen { info });
    assert_eq!(next(scr.step(four, &reply(0), 0)).0, Acquire::BlockLen { info });
    assert_eq!(
        prefix.step(four, &reply(0), 0),
        Progress::Failed(Error::UnexpectedResponse)
    );
    let (width, action) = next(prefix.step(four, &reply(0x20), 0));
    assert_eq!(action, CardAction::Send { command: Command::Acmd6SetBusWidth, arg: 2 });
    assert_eq!(
        width.step(four, &reply(0), 0),
        Progress::Next {
            state: Acquire::BlockLen { info },
            action: CardAction::Send { command: Command::Cmd16SetBlocklen, arg: 512 },
            set_four_bit: true,
        }
    );
    assert_eq!(
        Acquire::BlockLen { info }.step(four, &reply(0), 0),
        Progress::Acquired { info, set_four_bit: false }
    );
}

#[test]
fn card_that_is_not_selected_or_described_is_refused() {
    let host = Host { bus_mode: BusMode::FourBit, counter_hz: 1000 };
    let info = *card(CardType::SdhcSdxc).card_info();
    // State 4 is the transfer state.
    let status = Acquire::Status { info };
    assert_eq!(next(status.step(host, &reply(4 << 9), 0)).0, Acquire::ScrBlockLen { info });
    assert_eq!(
        status.step(host, &reply(3 << 9), 0),
        Progress::Failed(Error::UnexpectedResponse)
    );
    let describe = Acquire::SendCsd { card_type: CardType::SD2, cid: Cid { raw: 7 }, rca: 1 };
    let reserved = Ok(Reply { response: 0, long_response: [0xC0; 16], scr: [0; 8] });
    assert_eq!(
        describe.step(host, &reserved, 0),
        Progress::Failed(Error::UnexpectedResponse)
    );
}
