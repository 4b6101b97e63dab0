use embassy_zynq7000::clocks::{
    pll_output, read_from_regs, require_pll_output, validate_pll_state, ArmClockControl, Bypass,
    ClockControlRegisters, ClockModuleId, ClockReadError, CpuClockRatio, DivisorZero,
    DualCommonPeriphIoClockControl, FrozenClocks, PllControl, PllId, PllStatus, SrcSelArm, SrcSelIo,
};
use embassy_zynq7000::gpio::{
    commit_input_mode, updated, AnyPin, Bank, Flex, GpioOp, Input, IoType, LowLevelGpio, MaskedOut,
    MioPin, MioUpdate, MuxConfig, Output, PinIsOutputOnly, PinMode, PinOffset, PinState,
};
use embassy_zynq7000::slcr::{
    with_reset_pulse, with_unlocked_one, AmbaClock, DualClockReset, SlcrOp, LOCK_KEY, UNLOCK_KEY,
};
use embassy_zynq7000::{Hertz, InitError};

fn pll(fdiv: u8) -> PllControl {
    PllControl { fdiv, pwrdwn: false, reset: false, bypass: Bypass::NotBypassed }
}

fn locked() -> PllStatus {
    PllStatus { arm_pll_lock: true, io_pll_lock: true, ddr_pll_lock: true }
}

fn registers() -> ClockControlRegisters {
    ClockControlRegisters {
        arm_pll_ctrl: pll(40),
        io_pll_ctrl: pll(30),
        ddr_pll_ctrl: pll(32),
        pll_status: locked(),
        arm_clk_ctrl: ArmClockControl { srcsel: SrcSelArm::ArmPll, divisor: 2 },
        clk_ratio_select: CpuClockRatio::SixToTwoToOne,
        sdio_clk_ctrl: DualCommonPeriphIoClockControl { srcsel: SrcSelIo::IoPll, divisor: 20 },
        uart_clk_ctrl: DualCommonPeriphIoClockControl { srcsel: SrcSelIo::IoPll, divisor: 10 },
    }
}

#[test]
fn pll_output_reports_zero_feedback_divider_as_missing() {
    assert_eq!(pll_output(Hertz::from_raw(33_333_333), pll(0)), None);
}

#[test]
fn pll_output_multiplies_by_the_feedback_divider() {
    assert_eq!(pll_output(Hertz::from_raw(33_333_300), pll(40)), Some(Hertz::from_raw(1_333_332_000)));
}

#[test]
fn clock_tree_of_a_running_system() {
    let clocks = read_from_regs(&registers(), Hertz::from_raw(33_333_300)).unwrap();
    assert_eq!(clocks.cpu_1x_clk(), Hertz::from_raw(111_111_000));
    assert_eq!(clocks.cpu_3x2x_clk(), Hertz::from_raw(333_333_000));
    assert_eq!(clocks.uart_clk(), Hertz::from_raw(99_999_900));
    assert_eq!(clocks.sdio_clk(), Hertz::from_raw(49_999_950));
    assert_eq!(clocks.io_clocks().ref_clk(), Hertz::from_raw(999_999_000));
    assert_eq!(clocks.io_clocks().selected_ref_clk(SrcSelIo::DdrPll), Hertz::from_raw(1_066_665_600));
}

#[test]
fn clock_tree_errors_name_their_cause() {
    let ps = Hertz::from_raw(33_333_300);
    let mut regs = registers();
    regs.uart_clk_ctrl.divisor = 0;
    assert_eq!(
        read_from_regs(&regs, ps).unwrap_err(),
        ClockReadError::DivisorZero(DivisorZero(ClockModuleId::Uart))
    );
    let mut regs = registers();
    regs.sdio_clk_ctrl.divisor = 0;
    assert_eq!(
        read_from_regs(&regs, ps).unwrap_err(),
        ClockReadError::DivisorZero(DivisorZero(ClockModuleId::Sdio))
    );
    let mut regs = registers();
    regs.arm_clk_ctrl.divisor = 0;
    assert_eq!(
        read_from_regs(&regs, ps).unwrap_err(),
        ClockReadError::DivisorZero(DivisorZero(ClockModuleId::Arm))
    );
    let mut regs = registers();
    regs.io_pll_ctrl.fdiv = 0;
    assert_eq!(read_from_regs(&regs, ps).unwrap_err(), ClockReadError::PllFeedbackZero);
    assert_eq!(require_pll_output(None), Err(ClockReadError::PllFeedbackZero));
    assert_eq!(
        InitError::from(ClockReadError::PllFeedbackZero),
        InitError::Clocks(ClockReadError::PllFeedbackZero)
    );
    assert_eq!(
        ClockReadError::from(DivisorZero(ClockModuleId::Arm)),
        ClockReadError::DivisorZero(DivisorZero(ClockModuleId::Arm))
    );
}

#[test]
fn inactive_plls_are_refused() {
    for broken in [
        PllControl { bypass: Bypass::Bypassed, ..pll(30) },
        PllControl { pwrdwn: true, ..pll(30) },
        PllControl { reset: true, ..pll(30) },
    ] {
        assert_eq!(
            validate_pll_state(PllId::Io, broken, locked()),
            Err(ClockReadError::InactivePll(PllId::Io))
        );
    }
    let unlocked = PllStatus { ddr_pll_lock: false, ..locked() };
    assert_eq!(
        validate_pll_state(PllId::Ddr, pll(30), unlocked),
        Err(ClockReadError::InactivePll(PllId::Ddr))
    );
    assert_eq!(validate_pll_state(PllId::Arm, pll(30), unlocked), Ok(()));
}

#[test]
fn clocks_are_frozen_once() {
    let first = read_from_regs(&registers(), Hertz::from_raw(33_333_300)).unwrap();
    let second = read_from_regs(&registers(), Hertz::from_raw(30_000_000)).unwrap();
    let mut frozen = FrozenClocks::new();
    frozen.init(first);
    frozen.init(second);
    assert_eq!(frozen.get().cpu_1x_clk(), first.cpu_1x_clk());
}

#[test]
fn failed_input_mode_change_preserves_previous_mode() {
    let mut mode = PinMode::OutputPushPull;

    let result = commit_input_mode(&mut mode, PinMode::InputFloating, || Err(PinIsOutputOnly));

    assert_eq!(result, Err(PinIsOutputOnly));
    assert_eq!(mode, PinMode::OutputPushPull);
}

#[test]
fn successful_input_mode_change_updates_mode() {
    let mut mode = PinMode::Disconnected;

    commit_input_mode(&mut mode, PinMode::InputPullUp, || Ok(())).unwrap();

    assert_eq!(mode, PinMode::InputPullUp);
}

#[test]
fn output_only_pins_are_refused_as_inputs() {
    assert!(!AnyPin::new(7).is_input_capable());
    assert!(!AnyPin::new(8).is_input_capable());
    assert!(AnyPin::new(9).is_input_capable());
    assert!(matches!(Input::new(AnyPin::new(8)), Err(PinIsOutputOnly)));
    let (mut flex, _) = Flex::new(AnyPin::new(7));
    assert_eq!(flex.configure_as_input_floating().err(), Some(PinIsOutputOnly));
    assert_eq!(flex.configure_as_input_with_pull_up().err(), Some(PinIsOutputOnly));
    assert_eq!(flex.mode, PinMode::Disconnected);
    assert!(flex.configure_as_output_push_pull(PinState::Low).len() > 0);
    assert_eq!(flex.mode, PinMode::OutputPushPull);
}

#[test]
fn masked_writes_let_one_bit_through() {
    let pin = LowLevelGpio::new(PinOffset::Mio(50));
    assert_eq!(pin.raw_offset(), 50);
    assert_eq!(pin.get_masked_out_reg_and_local_offset(), (2, MaskedOut::Bank1Msw));
    assert_eq!(pin.get_dirm_outen_regs_and_local_offset(), (18, Bank::Bank1));
    assert_eq!(
        pin.set_high(),
        GpioOp::MaskedOutput { reg: MaskedOut::Bank1Msw, mask: 0xFFFB, output: 0x0004 }
    );
    assert_eq!(
        pin.set_low(),
        GpioOp::MaskedOutput { reg: MaskedOut::Bank1Msw, mask: 0xFFFB, output: 0 }
    );
    assert!(pin.is_high(1 << 18));
    assert!(pin.is_low(!(1 << 18)));
    assert_eq!(updated(0xF0, 0, true), 0xF1);
    assert_eq!(updated(0xF1, 4, false), 0xE1);
}

#[test]
fn output_toggles_away_from_its_level() {
    let (led, slcr, gpio) = Output::new(AnyPin::new(7), PinState::Low);
    assert!(slcr.contains(&SlcrOp::EnableAmbaClock(AmbaClock::Gpio)));
    assert!(gpio.contains(&GpioOp::OutputEnable { bank: Bank::Bank0, bit: 7, value: true }));
    assert_eq!(led.toggle(0), led.set_high());
    assert_eq!(led.toggle(1 << 7), led.set_low());
    assert!(led.is_set_high(1 << 7));
    assert!(led.is_set_low(0));
}

#[test]
fn pin_updates_keep_what_they_do_not_name() {
    let pin = MioPin {
        pullup: true,
        io_type: IoType::LvCmos18,
        l0_sel: true,
        l1_sel: true,
        l2_sel: 3,
        l3_sel: 7,
        tri_enable: true,
    };
    let update = MioUpdate { tristate: false, pullup: None, io_type: None, mux_conf: None };
    assert_eq!(update.apply(pin), MioPin { tri_enable: false, ..pin });
    let mux = MuxConfig::new_with_l3(4);
    let update = MioUpdate {
        tristate: true,
        pullup: Some(false),
        io_type: Some(IoType::LvCmos33),
        mux_conf: Some(mux),
    };
    let after = update.apply(pin);
    assert_eq!(after.l3_sel, 4);
    assert!(!after.l0_sel && !after.l1_sel && !after.pullup);
    assert_eq!(after.io_type, IoType::LvCmos33);
}

#[test]
fn protected_accesses_lock_again() {
    assert_eq!(
        with_unlocked_one(SlcrOp::WriteLevelShifter(0xF)),
        vec![
            SlcrOp::WriteUnlock(UNLOCK_KEY),
            SlcrOp::WriteLevelShifter(0xF),
            SlcrOp::WriteLock(LOCK_KEY),
        ]
    );
    let asserted = DualClockReset { periph0_cpu1x_rst: true, periph1_cpu1x_rst: false };
    let released = DualClockReset { periph0_cpu1x_rst: false, periph1_cpu1x_rst: false };
    let ops = with_reset_pulse(SlcrOp::WriteI2cReset(asserted), 3, SlcrOp::WriteI2cReset(released));
    assert_eq!(ops.first(), Some(&SlcrOp::WriteUnlock(UNLOCK_KEY)));
    assert_eq!(ops.last(), Some(&SlcrOp::WriteLock(LOCK_KEY)));
    assert_eq!(ops[1], SlcrOp::WriteI2cReset(asserted));
    assert_eq!(ops[ops.len() - 2], SlcrOp::WriteI2cReset(released));
}
