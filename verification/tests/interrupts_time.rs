use std::sync::atomic::{AtomicUsize, Ordering};

use embassy_zynq7000::clocks::{ArmClocks, Clocks, IoClocks};
use embassy_zynq7000::gtc::{Control, ControlUpdate, GlobalTimerCounter, GtcOp};
use embassy_zynq7000::hal::interrupt::dispatch;
use embassy_zynq7000::interrupt::{
    bind, register, typelevel, HandlerTable, Interrupt, InterruptInfo,
    InterruptSignalRegister, PpiInterrupt, SpiInterrupt,
};
use embassy_zynq7000::multicore::{
    cpu_id_from_mpidr, dispatch_sgi, interrupts_enabled, owner_for_cpu, register_current_core,
    Attempt, ReconfigurationLock,
};
use embassy_zynq7000::platform;
use embassy_zynq7000::runtime::{
    dispatch_interrupts, enable_interrupt, end_of_interrupt, initialize, spi_trigger_config,
    unpend_interrupt, updated_trigger, DispatchAction, GicOp,
};
use embassy_zynq7000::time::{
    counter_to_ticks_with_hz, init, programmed_alarm_is_stale, ticks_to_counter_ceil_with_hz,
    AlarmStep, GtcTimerDriver, TICK_HZ,
};
use embassy_zynq7000::{Hertz, InterruptConfig};

static CALLS: AtomicUsize = AtomicUsize::new(0);

struct TestHandler;

impl typelevel::Handler<typelevel::GlobalTimer> for TestHandler {
    fn on_interrupt() {
        CALLS.fetch_add(1, Ordering::Relaxed);
    }
}

#[derive(Clone, Copy)]
struct TimerBinding;

impl typelevel::Binding<typelevel::GlobalTimer, TestHandler> for TimerBinding {
    fn address(&self) -> usize {
        0x1000
    }

    fn handler_address(&self) -> usize {
        0x1000
    }
}

const UART0_HANDLER_A: usize = 0x1000;
const UART0_HANDLER_B: usize = 0x2000;
const UART1_HANDLER: usize = 0x3000;

#[test]
fn interrupt_raw_mapping_round_trips_supported_ids() {
    let global_timer = Interrupt::from_raw(27);
    let uart0 = Interrupt::from_raw(59);
    let uart1 = Interrupt::from_raw(82);

    assert_eq!(global_timer, Interrupt::Ppi(PpiInterrupt::GlobalTimer));
    assert_eq!(uart0, Interrupt::Spi(SpiInterrupt::Uart0));
    assert_eq!(uart1, Interrupt::Spi(SpiInterrupt::Uart1));
    assert_eq!(global_timer.raw_id(), Some(27));
    assert_eq!(uart0.raw_id(), Some(59));
    assert_eq!(uart1.raw_id(), Some(82));
}

#[test]
fn invalid_and_spurious_interrupts_are_not_dispatchable() {
    let table = HandlerTable::new();
    assert_eq!(Interrupt::from_raw(26), Interrupt::Invalid(26));
    assert_eq!(Interrupt::from_raw(1023), Interrupt::Spurious);
    assert_eq!(Interrupt::Invalid(200).raw_id(), None);
    assert_eq!(Interrupt::Spurious.raw_id(), None);
    assert!(table.dispatch_registered(Interrupt::Invalid(200)).is_none());
    assert!(table.dispatch_registered(Interrupt::Spurious).is_none());
}

#[test]
fn register_allows_duplicate_identical_handler() {
    let mut table = HandlerTable::new();

    register::<typelevel::Uart0>(&mut table, UART0_HANDLER_A);
    register::<typelevel::Uart0>(&mut table, UART0_HANDLER_A);

    assert_eq!(
        table.dispatch_registered(Interrupt::Spi(SpiInterrupt::Uart0)),
        Some(UART0_HANDLER_A)
    );
}

#[test]
fn conflicting_handler_is_not_accepted() {
    let mut table = HandlerTable::new();
    let uart0 = Interrupt::Spi(SpiInterrupt::Uart0);
    assert!(table.accepts(uart0, UART0_HANDLER_B));
    register::<typelevel::Uart0>(&mut table, UART0_HANDLER_A);
    assert!(table.accepts(uart0, UART0_HANDLER_A));
    assert!(!table.accepts(uart0, UART0_HANDLER_B));
    assert!(table.accepts(Interrupt::Spi(SpiInterrupt::Uart1), UART0_HANDLER_B));
    assert!(table.accepts(Interrupt::Spurious, UART0_HANDLER_B));
    assert_eq!(table.dispatch_registered(uart0), Some(UART0_HANDLER_A));
}

#[test]
fn dispatch_registered_invokes_bound_handler() {
    let mut table = HandlerTable::new();
    register::<typelevel::Uart1>(&mut table, UART1_HANDLER);

    assert_eq!(
        table.dispatch_registered(Interrupt::Spi(SpiInterrupt::Uart1)),
        Some(UART1_HANDLER)
    );
    assert_eq!(table.dispatch_registered(Interrupt::Spi(SpiInterrupt::Uart0)), None);
}

#[test]
fn matches_global_timer() {
    assert!(embassy_zynq7000::hal::interrupt::matches::<typelevel::GlobalTimer>(Interrupt::Ppi(
        PpiInterrupt::GlobalTimer,
    )));
    assert!(!embassy_zynq7000::hal::interrupt::matches::<typelevel::GlobalTimer>(Interrupt::Spi(
        SpiInterrupt::Usb0,
    )));
}

#[test]
fn dispatches_matching_handler() {
    CALLS.store(0, Ordering::Relaxed);
    let dispatched = dispatch::<typelevel::GlobalTimer, TestHandler>(Interrupt::Ppi(
        PpiInterrupt::GlobalTimer,
    ));
    assert!(dispatched);
    assert_eq!(CALLS.load(Ordering::Relaxed), 1);
}

#[test]
fn ignores_non_matching_interrupts() {
    CALLS.store(0, Ordering::Relaxed);
    let dispatched =
        dispatch::<typelevel::GlobalTimer, TestHandler>(Interrupt::Spi(SpiInterrupt::Usb0));
    assert!(!dispatched);
    assert_eq!(CALLS.load(Ordering::Relaxed), 0);
}

#[test]
fn binding_registers_and_enables() {
    let mut table = HandlerTable::new();
    let ops = bind::<typelevel::GlobalTimer, TestHandler, TimerBinding>(TimerBinding, &mut table);
    let timer = Interrupt::Ppi(PpiInterrupt::GlobalTimer);
    assert_eq!(ops, [unpend_interrupt(timer), enable_interrupt(timer)].concat());
    assert_eq!(
        table.dispatch_registered(Interrupt::Ppi(PpiInterrupt::GlobalTimer)),
        Some(0x1000)
    );
}

#[test]
fn enabling_clears_the_pending_bit_first() {
    let ops = enable_interrupt(Interrupt::Spi(SpiInterrupt::Uart1));
    let clear = ops
        .iter()
        .position(|op| *op == GicOp::WriteClearPending { index: 2, mask: 1 << 18 })
        .unwrap();
    let set = ops
        .iter()
        .position(|op| *op == GicOp::MergeSetEnable { index: 2, mask: 1 << 18 })
        .unwrap();
    assert!(clear < set);
    assert!(initialize(InterruptConfig::AllInterruptsToCpu0).len() > 0);
}

#[test]
fn trigger_fields_are_two_bits_wide() {
    let (index, mask, value) = spi_trigger_config(82);
    assert_eq!(index, 5);
    assert_eq!(mask, 0b11 << 4);
    assert_eq!(updated_trigger(0xFFFF_FFFF, mask, value) & !mask, !mask);
    assert_eq!(updated_trigger(0xFFFF_FFFF, mask, value) & mask, value);
}

#[test]
fn delivered_interrupts_run_their_handler() {
    let mut table = HandlerTable::new();
    register::<typelevel::Uart1>(&mut table, UART1_HANDLER);
    let uart1 = InterruptSignalRegister { cpu_id: 0, ack_int_id: 82 };
    assert_eq!(dispatch_interrupts(uart1, &table), DispatchAction::Run(UART1_HANDLER));
    let uart0 = InterruptSignalRegister { cpu_id: 0, ack_int_id: 59 };
    assert_eq!(
        dispatch_interrupts(uart0, &table),
        DispatchAction::Unhandled(Interrupt::Spi(SpiInterrupt::Uart0))
    );
    let spurious = InterruptSignalRegister { cpu_id: 0, ack_int_id: 1023 };
    assert_eq!(dispatch_interrupts(spurious, &table), DispatchAction::Done(false));
    let info = InterruptInfo::new(uart1);
    assert_eq!(info.interrupt(), Interrupt::Spi(SpiInterrupt::Uart1));
    assert_eq!(info.cpu_id(), 0);
}

#[test]
fn registration_enables_the_timer_on_its_processor_only() {
    let sgi = [
        unpend_interrupt(Interrupt::Sgi(15)),
        enable_interrupt(Interrupt::Sgi(15)),
    ]
    .concat();
    let timer = Interrupt::Ppi(PpiInterrupt::GlobalTimer);
    let both = [sgi.clone(), unpend_interrupt(timer), enable_interrupt(timer)].concat();
    let mut driver = GtcTimerDriver::new();
    driver.cpu = Some(0);
    assert_eq!(register_current_core(&driver, 0), both);
    assert_eq!(register_current_core(&driver, 1), sgi);
}

#[test]
fn platform_dispatch_asks_the_caller() {
    let timer = InterruptSignalRegister { cpu_id: 0, ack_int_id: 27 };
    let (handled, ops) = platform::dispatch_interrupts(timer, |interrupt| {
        interrupt == Interrupt::Ppi(PpiInterrupt::GlobalTimer)
    });
    assert!(handled);
    assert_eq!(ops, vec![GicOp::WriteEndOfInterrupt(timer)]);
    assert!(!platform::dispatch_interrupts(timer, |_| false).0);
    let spurious = InterruptSignalRegister { cpu_id: 1, ack_int_id: 1023 };
    let (handled, ops) = platform::dispatch_interrupts(spurious, |_| true);
    assert!(!handled);
    assert_eq!(ops, vec![end_of_interrupt(spurious)]);
    assert_eq!(platform::interrupt_to_dispatch(spurious), None);
    assert_eq!(platform::ps_clock_frequency(), Hertz::from_raw(33_333_300));
}

#[test]
fn lock_nests_and_excludes_the_other_processor() {
    let mut lock = ReconfigurationLock::new();
    let outer = match lock.try_acquire(0, true) {
        Attempt::Acquired(guard) => guard,
        Attempt::Busy { .. } => panic!("the lock is free"),
    };
    assert_eq!(lock.try_acquire(1, true), Attempt::Busy { restore_interrupts: true });
    let inner = match lock.try_acquire(0, false) {
        Attempt::Acquired(guard) => guard,
        Attempt::Busy { .. } => panic!("the lock nests"),
    };
    assert!(!lock.release(inner));
    assert!(lock.release(outer));
    assert!(matches!(lock.try_acquire(1, false), Attempt::Acquired(_)));
    assert_eq!(cpu_id_from_mpidr(0x8000_0001), 1);
    assert_eq!(owner_for_cpu(1), 2);
    assert!(interrupts_enabled(0x1F));
    assert!(!interrupts_enabled(0x9F));
    assert!(dispatch_sgi(15));
    assert!(!dispatch_sgi(3));
}

#[test]
fn counter_to_ticks_uses_integer_floor_conversion() {
    let cpu_hz = 333_333_333;
    let counter = cpu_hz * 4 + cpu_hz / 2;

    assert_eq!(
        counter_to_ticks_with_hz(counter, cpu_hz),
        TICK_HZ * 4 + TICK_HZ / 2
    );
}

#[test]
fn ticks_to_counter_ceil_rounds_up_fractional_results() {
    let counter = ticks_to_counter_ceil_with_hz(1, 3).unwrap();
    assert_eq!(counter, 1);

    let cpu_hz = 1_000_001;
    let expected = (cpu_hz as u128).div_ceil(TICK_HZ as u128) as u64;
    assert_eq!(ticks_to_counter_ceil_with_hz(1, cpu_hz), Some(expected));
}

#[test]
fn ticks_to_counter_ceil_returns_none_on_overflow() {
    assert_eq!(ticks_to_counter_ceil_with_hz(u64::MAX, u64::MAX), None);
}

#[test]
fn counter_tick_conversions_are_monotonic() {
    let cpu_hz = 600_000_000;
    let ticks = 123_456_u64;
    let counter = ticks_to_counter_ceil_with_hz(ticks, cpu_hz).unwrap();

    assert!(counter_to_ticks_with_hz(counter, cpu_hz) >= ticks);
    assert!(counter_to_ticks_with_hz(counter.saturating_sub(1), cpu_hz) <= ticks);
}

#[test]
fn programmed_alarm_staleness_detects_elapsed_deadline() {
    assert!(programmed_alarm_is_stale(10, 10));
    assert!(programmed_alarm_is_stale(10, 11));
    assert!(!programmed_alarm_is_stale(11, 10));
}

#[test]
fn time_init_tracks_global_driver_state_separately_from_per_cpu_irq_enable() {
    let driver = GtcTimerDriver::new();
    assert!(driver.cpu.is_none());
    assert!(driver.cpu_3x2x_clk_hz.is_none());
}

#[test]
fn tick_rate_is_that_of_the_time_driver() {
    assert_eq!(TICK_HZ, embassy_time_driver::TICK_HZ);
    assert_eq!(counter_to_ticks_with_hz(333_333_000, 333_333_000), embassy_time_driver::TICK_HZ);
}

fn clocks() -> Clocks {
    Clocks {
        arm_clocks: ArmClocks {
            cpu_1x_clk: Hertz::from_raw(100_000_000),
            cpu_3x2x_clk: Hertz::from_raw(300_000_000),
        },
        io_clocks: IoClocks {
            io_pll_clk: Hertz::from_raw(1_000_000_000),
            arm_pll_clk: Hertz::from_raw(1_200_000_000),
            ddr_pll_clk: Hertz::from_raw(1_100_000_000),
            sdio_clk: Hertz::from_raw(50_000_000),
            uart_clk: Hertz::from_raw(100_000_000),
        },
    }
}

#[test]
fn alarm_is_programmed_and_confirmed() {
    let mut driver = GtcTimerDriver::new();
    let mut table = HandlerTable::new();
    let gtc = GlobalTimerCounter;
    init(&mut driver, &clocks(), &gtc, &mut table, 0x4000, 0);
    assert_eq!(driver.cpu_3x2x_clk_hz, Some(300_000_000));
    assert_eq!(driver.now(300_000_000), 1_000_000);
    let (step, ops) = driver.set_alarm(1_000_000, 300, &gtc);
    let programmed_timestamp = match step {
        AlarmStep::Confirm { programmed_timestamp } => programmed_timestamp,
        AlarmStep::Done { .. } => panic!("the deadline lies ahead"),
    };
    assert_eq!(programmed_timestamp, 1_000_000);
    assert!(ops.contains(&GtcOp::WriteComparatorLower(300_000_000)));
    let (armed, _) = driver.confirm_alarm(programmed_timestamp, 400, &gtc);
    assert!(armed);
    let (armed, _) = driver.confirm_alarm(programmed_timestamp, 400_000_000, &gtc);
    assert!(!armed);
    let (step, _) = driver.set_alarm(u64::MAX, 400_000_000, &gtc);
    assert_eq!(step, AlarmStep::Done { armed: true });
}

#[test]
fn counter_halves_are_read_until_they_agree() {
    let gtc = GlobalTimerCounter;
    assert_eq!(gtc.read_timer(2, 5, 2), Some(0x2_0000_0005));
    assert_eq!(gtc.read_timer(2, 5, 3), None);
    let control =
        Control { enable: false, comparator_enable: true, irq_enable: false, prescaler: 3 };
    assert_eq!(
        ControlUpdate::Enable(true).apply(control),
        Control { enable: true, ..control }
    );
    assert_eq!(
        ControlUpdate::Prescaler(7).apply(control),
        Control { prescaler: 7, ..control }
    );
}

#[test]
fn platform_driver_counts_in_whole_cycles_per_tick() {
    let mut driver = platform::time::GtcTimerDriver::new();
    let gtc = GlobalTimerCounter;
    platform::time::init(&mut driver, clocks().arm_clocks(), &gtc);
    assert_eq!(driver.now(300_000_000), 1_000_000);
    let (armed, ops) = driver.set_alarm(1_000_000, 300, &gtc);
    assert!(armed);
    assert!(ops.contains(&GtcOp::WriteComparatorLower(300_000_000)));
    let (armed, _) = driver.set_alarm(1, 300_000_000, &gtc);
    assert!(!armed);
}
