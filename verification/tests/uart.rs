use embassy_zynq7000::hal::uart::rx_async::{merge_rx_errors, RxAsync, RxAsyncContext};
use embassy_zynq7000::hal::uart::RxErrors;
use embassy_zynq7000::uart::sealed::PinMetadata;
use embassy_zynq7000::uart::{
    baud_source_clock, drop_releases_uart, rx_interrupt_should_complete, rx_interrupt_status,
    smallest_error_config, take_rx_error, tx_interrupt_status, uart_configs_match, BaudCandidate,
    BlockingRead, BlockingWrite, ClaimedPins, ClockConfig, ClockSelect, Config, DivisorZero, InterruptFlags, IoErrorKind, Parity, ReadFifoError, ReadStep,
    SerialErrorKind, State, TxService, Uart, UartError, UartId, UartOp, UartRx, UartTx, WouldBlock,
    WriteStep,
};
use embassy_zynq7000::Hertz;
use embassy_zynq7000::chip::{uart_pin_metadata, uart_route_supported, Package};
use embassy_zynq7000::uart::sealed::PinDirection;

fn quiet() -> InterruptFlags {
    InterruptFlags {
        tx_over: false,
        tx_near_full: false,
        tx_trig: false,
        rx_dms: false,
        rx_timeout: false,
        rx_parity: false,
        rx_framing: false,
        rx_over: false,
        tx_full: false,
        tx_empty: false,
        rx_full: false,
        rx_empty: false,
        rx_trg: false,
    }
}

fn config() -> Config {
    Config::new_with_clk_config(ClockConfig::new(62, 6).unwrap())
}

fn pin(mio: u8, direction: PinDirection) -> PinMetadata {
    uart_pin_metadata(Package::Full, UartId::Uart1, mio, direction).unwrap()
}

#[test]
fn rx_timeout_without_data_does_not_complete() {
    assert!(!rx_interrupt_should_complete(0, true, None));
}

#[test]
fn rx_timeout_with_data_completes() {
    assert!(rx_interrupt_should_complete(1, true, None));
}

#[test]
fn rx_error_completes_even_without_data() {
    assert!(rx_interrupt_should_complete(
        0,
        false,
        Some(UartError::Overrun)
    ));
}

#[test]
fn drop_releases_uart_only_for_last_reference() {
    assert!(drop_releases_uart(1));
    assert!(!drop_releases_uart(2));
}

#[test]
fn zero_divisors_are_refused() {
    assert_eq!(ClockConfig::new(0, 6), Err(DivisorZero));
    assert!(ClockConfig::new(62, 0).is_ok());
    let config = ClockConfig::new(62, 6).unwrap();
    assert_eq!((config.cd(), config.bdiv()), (62, 6));
}

#[test]
fn error_codes_read_back() {
    for error in [UartError::Parity, UartError::Framing, UartError::Overrun] {
        assert_eq!(UartError::from_bits(error.into_bits()), Some(error));
    }
    assert_eq!(UartError::from_bits(0), None);
    assert_eq!(UartError::Overrun.io_kind(), IoErrorKind::OutOfMemory);
    assert_eq!(UartError::Parity.io_kind(), IoErrorKind::InvalidData);
    assert_eq!(UartError::Framing.serial_kind(), SerialErrorKind::FrameFormat);
}

#[test]
fn pending_errors_are_taken_in_order() {
    assert_eq!(take_rx_error(quiet()), None);
    let (error, _) = take_rx_error(InterruptFlags { rx_framing: true, ..quiet() }).unwrap();
    assert_eq!(error, UartError::Framing);
    let (error, _) = take_rx_error(InterruptFlags { rx_over: true, ..quiet() }).unwrap();
    assert_eq!(error, UartError::Overrun);
    let (error, _) = take_rx_error(InterruptFlags { rx_parity: true, ..quiet() }).unwrap();
    assert_eq!(error, UartError::Parity);
}

#[test]
fn halves_share_a_uart_until_both_are_dropped() {
    let mut state = State::new();
    let tx = pin(48, PinDirection::Tx);
    let rx = pin(49, PinDirection::Rx);
    let (uart, ops) = Uart::new_blocking(&mut state, UartId::Uart1, tx, rx, config());
    assert!(ops.contains(&UartOp::WriteBaudgen(62)));
    assert!(ops.contains(&UartOp::WriteBaudRateDiv(6)));
    assert_eq!(state.tx_rx_refcount, 2);
    let (tx_half, rx_half) = uart.split();
    assert_eq!(tx_half.id, rx_half.id);
    assert!(state.drop_tx_rx(UartId::Uart1).is_empty());
    assert!(!state.drop_tx_rx(UartId::Uart1).is_empty());
    assert_eq!(state.tx_rx_refcount, 0);
    assert_eq!(state.active_config, None);
}

#[test]
fn configurations_are_compared_field_by_field() {
    assert!(uart_configs_match(config(), config()));
    assert!(!uart_configs_match(config(), Config { parity: Parity::Even, ..config() }));
    let mut claimed = ClaimedPins { tx_mio: Some(48), rx_mio: None, route_id: Some(12) };
    claimed.merge(ClaimedPins { tx_mio: None, rx_mio: Some(49), route_id: Some(12) });
    assert_eq!(
        claimed,
        ClaimedPins { tx_mio: Some(48), rx_mio: Some(49), route_id: Some(12) }
    );
}

#[test]
fn directions_use_different_interrupts() {
    let tx = tx_interrupt_status();
    let rx = rx_interrupt_status();
    assert!(!(tx.tx_empty && rx.tx_empty));
    assert!(!(tx.rx_trg && rx.rx_trg));
    assert!(rx.rx_timeout && !tx.rx_timeout);
}

#[test]
fn asynchronous_write_sends_the_whole_buffer() {
    let mut state = State::new();
    let tx = UartTx { id: UartId::Uart1 };
    let data: Vec<u8> = (0..70).collect();
    let ops = state.start_write(&tx, 0x1000, &data);
    let mut sent: Vec<u8> = ops
        .iter()
        .filter_map(|op| match op {
            UartOp::WriteFifo(byte) => Some(*byte),
            _ => None,
        })
        .collect();
    assert_eq!(sent.len(), 64);
    assert!(state.poll_write().is_none());
    let pending = InterruptFlags { tx_empty: true, ..quiet() };
    assert_eq!(state.on_interrupt_tx(pending, pending), TxService::Fill);
    while let Some(byte) = state.fill_step(&data, false) {
        sent.push(byte);
    }
    assert_eq!(sent, data);
    assert!(state.fill_done(true));
    state.finish_tx(true);
    assert!(state.poll_write().is_some());
}

#[test]
fn blocking_write_waits_for_room() {
    let mut write = BlockingWrite::new();
    assert_eq!(write.step(b"ab", true), WriteStep::Wait);
    assert_eq!(write.step(b"ab", false), WriteStep::Wait);
    assert_eq!(write.step(b"ab", false), WriteStep::Write(b'a'));
    assert_eq!(write.step(b"ab", true), WriteStep::Done(1));
    let tx = UartTx { id: UartId::Uart0 };
    assert_eq!(tx.write_fifo(7, true), Err(WouldBlock));
    assert_eq!(tx.write_fifo(7, false), Ok(UartOp::WriteFifo(7)));
}

#[test]
fn blocking_read_reports_errors() {
    let rx = UartRx { id: UartId::Uart0 };
    let mut read = BlockingRead::new();
    assert_eq!(read.step(&rx, 2, quiet(), false).0, ReadStep::Store(0));
    assert_eq!(read.step(&rx, 2, quiet(), false).0, ReadStep::Store(1));
    assert_eq!(read.step(&rx, 2, quiet(), true).0, ReadStep::Done(Ok(2)));
    assert_eq!(rx.read_fifo(quiet(), true).0, Err(ReadFifoError::WouldBlock));
    assert_eq!(
        rx.read_fifo(InterruptFlags { rx_over: true, ..quiet() }, false).0,
        Err(ReadFifoError::Other(UartError::Overrun))
    );
    assert_eq!(rx.read_fifo_unchecked(0x141), 0x41);
}

#[test]
fn routes_pair_neighbouring_pins() {
    assert!(uart_route_supported(Package::Full, UartId::Uart1, 48, 49));
    assert!(!uart_route_supported(Package::Full, UartId::Uart0, 48, 49));
    assert!(!uart_route_supported(Package::Clg225, UartId::Uart1, 40, 41));
}

#[test]
fn pending_signal_is_reported_without_buffered_bytes() {
    let mut ctx = RxAsyncContext::new();
    ctx.clear(8);
    assert!(!ctx.has_pending_signal());

    ctx.errors = Some(RxErrors::default());
    assert!(ctx.has_pending_signal());

    ctx.errors = None;
    ctx.overflowed = true;
    assert!(ctx.has_pending_signal());
}

#[test]
fn receive_ring_wraps_and_keeps_order() {
    let mut ctx = RxAsyncContext::new();
    let mut rx = RxAsync::<4>::new(UartId::Uart0, &mut ctx);
    assert!(ctx.on_interrupt(&[1, 2, 3], None));
    let mut buf = vec![0u8; 2];
    assert_eq!(rx.poll_read(&mut ctx, &mut buf), Some(2));
    assert_eq!(buf, vec![1, 2]);
    assert!(ctx.on_interrupt(&[4, 5, 6, 7], None));
    assert_eq!(rx.available(&ctx), 4);
    assert!(rx.take_overflowed(&mut ctx));
    assert!(!rx.take_overflowed(&mut ctx));
    let mut buf = vec![0u8; 8];
    assert_eq!(rx.poll_read(&mut ctx, &mut buf), Some(4));
    assert_eq!(&buf[..4], &[3, 4, 5, 6]);
    assert_eq!(rx.poll_read(&mut ctx, &mut buf), None);
}

#[test]
fn receive_errors_are_gathered() {
    let framing = RxErrors { framing: true, ..RxErrors::default() };
    let parity = RxErrors { parity: true, ..RxErrors::default() };
    assert_eq!(merge_rx_errors(None, framing), framing);
    assert_eq!(
        merge_rx_errors(Some(framing), parity),
        RxErrors { overflow: false, framing: true, parity: true }
    );
    let mut ctx = RxAsyncContext::new();
    assert!(ctx.on_interrupt(&[1], Some(framing)));
    assert_eq!(ctx.errors, None);
    let mut rx = RxAsync::<4>::new(UartId::Uart0, &mut ctx);
    assert!(ctx.on_interrupt(&[], Some(framing)));
    assert!(!ctx.on_interrupt(&[], None));
    let mut buf = vec![0u8; 1];
    assert_eq!(rx.poll_read(&mut ctx, &mut buf), Some(0));
    assert_eq!(rx.take_errors(&mut ctx), Some(framing));
    assert_eq!(rx.take_errors(&mut ctx), None);
    assert_eq!(rx.release(&mut ctx), UartId::Uart0);
    assert!(!ctx.active);
}

/// The candidates for a clock and a baud rate, ranked by the bits of their error.
fn baud_candidates(clk: u32, target: u32) -> Vec<BaudCandidate> {
    let clk = f64::from(clk);
    let target = f64::from(target);
    (4..u8::MAX)
        .map(|bdiv| {
            let divider = f64::from(bdiv) + 1.0;
            let cd = (clk / (divider * target)).round();
            let error = ((clk / (cd * divider) - target).abs() / target) * 100.0;
            BaudCandidate { cd: cd as u64, bdiv, error_rank: error.to_bits() }
        })
        .collect()
}

#[test]
fn smallest_baud_error_is_chosen() {
    let limit = 100.0f64.to_bits();
    let (config, rank) = smallest_error_config(&baud_candidates(100_000_000, 115_200), limit);
    assert_eq!((config.cd(), config.bdiv()), (124, 6));
    assert!(f64::from_bits(rank) < 0.0065);
    let (config, _) = smallest_error_config(&baud_candidates(50_000_000, 9600), limit);
    assert_eq!((config.cd(), config.bdiv()), (868, 5));
}

#[test]
fn unattainable_baud_rate_keeps_the_default_divisors() {
    let limit = 100.0f64.to_bits();
    let unattainable = smallest_error_config(&baud_candidates(100, 115_200), limit);
    assert_eq!(unattainable, (ClockConfig::default(), limit));
    let too_large = BaudCandidate { cd: 65_536, bdiv: 4, error_rank: 0 };
    assert_eq!(smallest_error_config(&[too_large], limit).0, ClockConfig::default());
}

#[test]
fn first_of_equal_baud_errors_wins() {
    let candidate = |bdiv, error_rank| BaudCandidate { cd: 7, bdiv, error_rank };
    let candidates = [candidate(4, 9), candidate(5, 3), candidate(6, 3)];
    let (config, rank) = smallest_error_config(&candidates, 100);
    assert_eq!((config.bdiv(), rank), (5, 3));
}

#[test]
fn baud_source_clock_follows_the_selection() {
    let clk = Hertz::from_raw(100_000_000);
    assert_eq!(baud_source_clock(clk, ClockSelect::UartRefClk, 9600), Ok(clk));
    assert_eq!(
        baud_source_clock(clk, ClockSelect::UartRefClkDiv8, 9600),
        Ok(Hertz::from_raw(12_500_000))
    );
    assert_eq!(baud_source_clock(clk, ClockSelect::UartRefClk, 0), Err(DivisorZero));
}
