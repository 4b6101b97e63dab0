use embassy_zynq7000::cache::AlignmentError;
use embassy_zynq7000::examples::pwm::next_duty;
use embassy_zynq7000::examples::uart_blocking::{next_led, PinWrite, UartMultiplexer, UartSel};
use embassy_zynq7000::examples::usb_setup_poll::{
    apply_configuration, handle_setup_packet, write_string_descriptor, ApplyAction, ControlSeen,
    PendingStatusAction, Session, SetupPacket, DEVICE_DESCRIPTOR,
};
use embassy_zynq7000::gpio::PinState;
use embassy_zynq7000::hal::usb::descriptor::{
    DmaLayout, EndpointQueueHead, EndpointQueueHeadStorage, QueueHeadsTaken, TransferReport,
    UsbResources, DTD_NEXT_TERMINATE,
};
use embassy_zynq7000::hal::usb::device::{
    CommandUpdate, EndpointSeen, EndptCtrlUpdate, FlushWait, InitRegisters, InterruptRegisters,
    ResetWait, UsbController, UsbDevice, UsbOp, WaitStep,
};
use embassy_zynq7000::hal::usb::embassy::{
    check_endpoint, map_usb_error, Driver, EndpointAllocError, EndpointBuffers, EndpointError,
};
use embassy_zynq7000::hal::usb::runtime::{
    port_change_event_bits, power_event_bits_for_transition, ControllerRuntime, Event,
    EVENT_POWER_DETECTED, EVENT_POWER_REMOVED, EVENT_RESET, EVENT_RESUME, EVENT_SUSPEND,
};
use embassy_zynq7000::hal::usb::{
    endpoint_mask, ep0_addr, power_present_from_otgsc, staged_device_address, Direction,
    EndpointAddress, EndpointInfo, EndpointType, UsbError, UsbId, UsbInitError,
};
use embassy_zynq7000::pac::usb::{
    EndpointBitmap, EndpointSetupStatus, OtgSc, PortSc1, UsbCommand, UsbStatus,
    OTGSC_POWER_DETECTION_INTERRUPT_ENABLE_MASK, OTGSC_POWER_DETECTION_INTERRUPT_STATUS_MASK,
    PORTSC1_CHANGE_ACK_MASK, USB_STATUS_ACK_MASK,
};
use embassy_zynq7000::usb::driver::{
    fail_driver, poll_bus, status_in_poll_result, BusPoll, ControlPhase, ControlPoll, ControlState,
    EndpointIn, EndpointOut, InCompletion, OutCompletion, SetupCapture, SharedState, UsbBus, Wake,
    WriteStep,
};

#[test]
fn take_setup_packet_clears_pending_setup() {
    let mut state = ControlState {
        phase: ControlPhase::SetupPending([1, 2, 3, 4, 5, 6, 7, 8]),
    };

    assert_eq!(state.take_setup_packet(), Some([1, 2, 3, 4, 5, 6, 7, 8]));
    assert_eq!(state.phase, ControlPhase::Idle);
}

#[test]
fn newer_setup_packet_replaces_stale_pending_state() {
    let mut state = ControlState {
        phase: ControlPhase::SetupPending([1, 2, 3, 4, 5, 6, 7, 8]),
    };

    state.record_setup_packet([8, 7, 6, 5, 4, 3, 2, 1]);

    assert_eq!(state.take_setup_packet(), Some([8, 7, 6, 5, 4, 3, 2, 1]));
}

#[test]
fn pending_setup_takes_priority_over_buffered_out_payload() {
    let state = ControlState {
        phase: ControlPhase::SetupPending([1, 2, 3, 4, 5, 6, 7, 8]),
    };
    let pending_control_out = Some((OutCompletion::Data(8), 8));

    assert!(matches!(state.phase, ControlPhase::SetupPending(_)));
    assert!(pending_control_out.is_some());

    let mut shared = shared();
    shared.control = state;
    shared.pending_control_out = pending_control_out;
    let mut dst = vec![0u8; 64];
    assert_eq!(
        shared.control_take_out_data(true, true, Ok(None), &[], &mut dst),
        Ok(ControlPoll::Interrupted)
    );
    assert_eq!(shared.pending_control_out, None);
}

#[test]
fn final_data_out_transitions_to_awaiting_accept() {
    let mut state = ControlState {
        phase: ControlPhase::DataOut { last: true },
    };

    assert_eq!(state.finish_out(12), OutCompletion::AwaitingAccept(12));
    assert_eq!(state.phase, ControlPhase::AwaitingAccept);
}

#[test]
fn non_final_data_out_returns_to_idle() {
    let mut state = ControlState {
        phase: ControlPhase::DataOut { last: false },
    };

    assert_eq!(state.finish_out(8), OutCompletion::Data(8));
    assert_eq!(state.phase, ControlPhase::Idle);
}

#[test]
fn final_data_in_requests_status_stage() {
    let mut state = ControlState {
        phase: ControlPhase::DataIn { last: true },
    };

    assert_eq!(state.finish_in(), InCompletion::NeedsStatusOut);
    assert_eq!(state.phase, ControlPhase::Idle);
}

#[test]
fn non_final_data_in_returns_to_idle() {
    let mut state = ControlState {
        phase: ControlPhase::DataIn { last: false },
    };

    assert_eq!(state.finish_in(), InCompletion::DataComplete);
    assert_eq!(state.phase, ControlPhase::Idle);
}

#[test]
fn status_in_completion_returns_to_idle() {
    let mut state = ControlState {
        phase: ControlPhase::StatusIn,
    };

    assert_eq!(state.finish_in(), InCompletion::StatusComplete);

    assert_eq!(state.phase, ControlPhase::Idle);
}

#[test]
fn status_out_completion_returns_to_idle() {
    let mut state = ControlState {
        phase: ControlPhase::StatusOut,
    };

    assert_eq!(state.finish_out(0), OutCompletion::StatusComplete);

    assert_eq!(state.phase, ControlPhase::Idle);
}

#[test]
fn interrupted_status_in_is_not_treated_as_success() {
    assert_eq!(
        status_in_poll_result(ControlPoll::Interrupted),
        Some(Err(EndpointError::Disabled))
    );
}

#[test]
fn runtime_events_prioritize_reset_then_suspend_then_resume() {
    let mut runtime = ControllerRuntime::new();
    runtime.push_event(EVENT_RESUME);
    runtime.push_event(EVENT_SUSPEND);
    runtime.push_event(EVENT_RESET);

    assert!(matches!(runtime.take_event(), Some(Event::Reset)));
    assert!(matches!(runtime.take_event(), Some(Event::Suspend)));
    assert!(matches!(runtime.take_event(), Some(Event::Resume)));
    assert!(runtime.take_event().is_none());
}

#[test]
fn port_change_only_reports_resume_when_previously_suspended() {
    assert_eq!(port_change_event_bits(false, true), None);
    assert_eq!(port_change_event_bits(false, false), None);
    assert_eq!(port_change_event_bits(true, false), None);
    assert_eq!(port_change_event_bits(true, true), Some(EVENT_RESUME));
}

#[test]
fn staged_device_address_sets_address_and_advance_bit() {
    let staged = staged_device_address(42);
    assert_eq!(staged.usb_address(), 42);
    assert!(staged.address_advance());
}

#[test]
fn otgsc_power_decode_uses_real_session_and_vbus_bits() {
    assert!(!power_present_from_otgsc(OtgSc::new_with_raw_value(0)));
    assert!(power_present_from_otgsc(OtgSc::new_with_raw_value(1 << 11)));
    assert!(power_present_from_otgsc(OtgSc::new_with_raw_value(1 << 10)));
    assert!(power_present_from_otgsc(OtgSc::new_with_raw_value(1 << 9)));
    assert!(!power_present_from_otgsc(OtgSc::new_with_raw_value(
        1 << 12
    )));
}

#[test]
fn power_transition_emits_detected_and_removed_events() {
    assert_eq!(power_event_bits_for_transition(false, false), None);
    assert_eq!(
        power_event_bits_for_transition(false, true),
        Some(EVENT_POWER_DETECTED)
    );
    assert_eq!(power_event_bits_for_transition(true, true), None);
    assert_eq!(
        power_event_bits_for_transition(true, false),
        Some(EVENT_POWER_REMOVED)
    );
}

#[test]
fn clear_endpoint_state_clears_enable_stall_and_completion_bits() {
    let mut runtime = ControllerRuntime::new();
    let ep1_out = EndpointAddress::from_parts(1, Direction::Out);
    let ep1_in = EndpointAddress::from_parts(1, Direction::In);

    runtime.set_enabled(ep1_out, true);
    runtime.set_enabled(ep1_in, true);
    runtime.set_stalled(ep1_out, true);
    runtime.set_stalled(ep1_in, true);
    runtime.push_completed(Direction::Out, endpoint_mask(ep1_out));
    runtime.push_completed(Direction::In, endpoint_mask(ep1_in));

    runtime.clear_endpoint_state();

    assert!(!runtime.is_enabled(ep1_out));
    assert!(!runtime.is_enabled(ep1_in));
    assert!(!runtime.is_stalled(ep1_out));
    assert!(!runtime.is_stalled(ep1_in));
    assert!(!runtime.take_completed(ep1_out));
    assert!(!runtime.take_completed(ep1_in));
}

fn configure_dtd(resources: &mut UsbResources, addr: EndpointAddress, buffer: u32, len: usize) {
    let mut dtd = resources.dtd(addr);
    dtd.configure(buffer, len, true);
    resources.set_dtd(addr, dtd);
}

fn attach_dtd(resources: &mut UsbResources, addr: EndpointAddress, dtd_addr: u32) {
    let mut head = resources.queue_heads.endpoint(addr.index(), addr.direction());
    head.attach_dtd(dtd_addr);
    resources.queue_heads.set_endpoint(addr.index(), addr.direction(), head);
}

fn set_token(resources: &mut UsbResources, addr: EndpointAddress, token: u32) {
    let mut head = resources.queue_heads.endpoint(addr.index(), addr.direction());
    head.token = token;
    resources.queue_heads.set_endpoint(addr.index(), addr.direction(), head);
}

#[test]
fn clear_ep0_transfer_state_resets_bookkeeping_and_descriptors() {
    let mut resources = UsbResources::new();
    let ep0_out = ep0_addr(Direction::Out);
    let ep0_in = ep0_addr(Direction::In);

    resources.set_requested(ep0_out, 17);
    resources.set_requested(ep0_in, 9);
    configure_dtd(&mut resources, ep0_out, 0x1000, 17);
    configure_dtd(&mut resources, ep0_in, 0x2000, 9);
    attach_dtd(&mut resources, ep0_out, 0x8000);
    attach_dtd(&mut resources, ep0_in, 0x8020);
    set_token(&mut resources, ep0_out, 0x1234);
    set_token(&mut resources, ep0_in, 0x5678);

    resources.clear_ep0_transfer_state();

    assert_eq!(resources.requested(ep0_out), 0);
    assert_eq!(resources.requested(ep0_in), 0);
    assert_eq!(resources.dtd(ep0_out).token, 0);
    assert_eq!(resources.dtd(ep0_in).token, 0);
    assert_eq!(resources.dtd(ep0_out).next_dtd, DTD_NEXT_TERMINATE);
    assert_eq!(resources.dtd(ep0_in).next_dtd, DTD_NEXT_TERMINATE);
    assert_eq!(
        resources.queue_heads.endpoint(0, Direction::Out).next_dtd,
        DTD_NEXT_TERMINATE
    );
    assert_eq!(
        resources.queue_heads.endpoint(0, Direction::In).next_dtd,
        DTD_NEXT_TERMINATE
    );
    assert_eq!(resources.queue_heads.endpoint(0, Direction::Out).token, 0);
    assert_eq!(resources.queue_heads.endpoint(0, Direction::In).token, 0);
}

#[test]
fn reset_state_clears_all_endpoint_bookkeeping() {
    let mut resources = UsbResources::new();
    let ep1_out = EndpointAddress::from_parts(1, Direction::Out);
    let ep1_in = EndpointAddress::from_parts(1, Direction::In);

    resources.set_requested(ep1_out, 23);
    resources.set_requested(ep1_in, 11);
    configure_dtd(&mut resources, ep1_out, 0x3000, 23);
    configure_dtd(&mut resources, ep1_in, 0x4000, 11);
    attach_dtd(&mut resources, ep1_out, 0x8040);
    attach_dtd(&mut resources, ep1_in, 0x8060);

    resources.reset_state();

    assert_eq!(resources.requested(ep1_out), 0);
    assert_eq!(resources.requested(ep1_in), 0);
    assert_eq!(resources.dtd(ep1_out).token, 0);
    assert_eq!(resources.dtd(ep1_in).token, 0);
    assert_eq!(
        resources.queue_heads.endpoint(1, Direction::Out).next_dtd,
        DTD_NEXT_TERMINATE
    );
    assert_eq!(
        resources.queue_heads.endpoint(1, Direction::In).next_dtd,
        DTD_NEXT_TERMINATE
    );
}

#[test]
fn usb_status_ack_from_keeps_only_w1c_status_bits() {
    let status = UsbStatus::new_with_raw_value(0xFFFF_FFFF);
    assert_eq!(UsbStatus::ack_from(status).raw_value(), USB_STATUS_ACK_MASK);
}

#[test]
fn endpoint_setup_status_ack_helpers_build_zero_based_masks() {
    assert_eq!(EndpointSetupStatus::ack_mask(0x55AA).raw_value(), 0x55AA);
    assert_eq!(
        EndpointSetupStatus::ack_from(EndpointSetupStatus::new_with_raw_value(0xABCD_55AA))
            .raw_value(),
        0x55AA
    );
}

#[test]
fn endpoint_bitmap_ack_from_replays_only_bitmap_bits() {
    let status = EndpointBitmap::new_with_raw_value(0xA5A5_5A5A);
    assert_eq!(EndpointBitmap::ack_from(status).raw_value(), 0xA5A5_5A5A);
}

#[test]
fn portsc1_ack_change_bits_sets_only_change_flags() {
    let ack = PortSc1::ack_change_bits(true, false, true);
    assert_eq!(ack.raw_value(), (1 << 5) | (1 << 1));
}

#[test]
fn portsc1_ack_changes_from_preserves_control_bits() {
    let port = PortSc1::new_with_raw_value(PORTSC1_CHANGE_ACK_MASK | (1 << 8) | (1 << 7) | 1);
    assert_eq!(
        PortSc1::ack_changes_from(port).raw_value(),
        PORTSC1_CHANGE_ACK_MASK | (1 << 8) | (1 << 7) | 1
    );
}

#[test]
fn otgsc_power_detection_irq_write_preserves_other_bits_and_updates_enables() {
    let source = OtgSc::new_with_raw_value(
        OTGSC_POWER_DETECTION_INTERRUPT_STATUS_MASK
            | (1 << 12)
            | (1 << 11)
            | (1 << 10)
            | (1 << 9),
    );
    assert_eq!(
        OtgSc::power_detection_irq_write(true, source).raw_value(),
        OTGSC_POWER_DETECTION_INTERRUPT_ENABLE_MASK
            | OTGSC_POWER_DETECTION_INTERRUPT_STATUS_MASK
            | (1 << 12)
            | (1 << 11)
            | (1 << 10)
            | (1 << 9)
    );
    assert_eq!(
        OtgSc::power_detection_irq_write(false, source).raw_value(),
        OTGSC_POWER_DETECTION_INTERRUPT_STATUS_MASK
            | (1 << 12)
            | (1 << 11)
            | (1 << 10)
            | (1 << 9)
    );
}

fn layout() -> DmaLayout {
    DmaLayout {
        queue_heads: 0x10_0000,
        dtd_out: 0x11_0000,
        dtd_in: 0x12_0000,
        ep0_out_buffer: 0x13_0000,
        ep0_in_buffer: 0x14_0000,
    }
}

fn device() -> UsbDevice {
    UsbController::new(UsbId::Usb0).into_device(
        UsbResources::new(),
        ControllerRuntime::new(),
        layout(),
    )
}

fn shared() -> SharedState {
    let buffers = EndpointBuffers { out_base: 0x20_0000, in_base: 0x30_0000, size: 512 };
    SharedState::new(device(), buffers, vec![0u8; 256])
}

fn idle() -> EndpointSeen {
    EndpointSeen {
        dtd_token: 0,
        endptstatus: EndpointBitmap::new_with_raw_value(0),
        cache_ready: true,
    }
}

fn busy() -> EndpointSeen {
    EndpointSeen { dtd_token: 0x80, ..idle() }
}

fn registers() -> InitRegisters {
    InitRegisters {
        usbcmd: UsbCommand::new_with_raw_value(0),
        usbsts: UsbStatus::new_with_raw_value(0),
        endptsetupstat: EndpointSetupStatus::new_with_raw_value(0),
        endptcomplete: EndpointBitmap::new_with_raw_value(0),
        otgsc: OtgSc::new_with_raw_value(0),
        otgsc_running: OtgSc::new_with_raw_value(1 << 9),
    }
}

#[test]
fn device_mode_starts_and_enables_the_control_endpoint() {
    let mut device = device();
    let (ops, result) = device.start_device_mode(registers());
    assert_eq!(result, Ok(()));
    assert!(ops.contains(&UsbOp::ModifyUsbCmd(CommandUpdate::Run)));
    assert!(device.runtime.is_enabled(ep0_addr(Direction::Out)));
    assert!(device.runtime.is_enabled(ep0_addr(Direction::In)));
    assert!(device.runtime.power_present);
    let stuck = InitRegisters { usbcmd: UsbCommand::new_with_raw_value(2), ..registers() };
    assert_eq!(
        device.start_device_mode(stuck).1,
        Err(UsbError::Init(UsbInitError::ControllerResetTimedOut))
    );
    device.layout.queue_heads = 0x10_0020;
    assert_eq!(
        device.start_device_mode(registers()).1,
        Err(UsbError::Init(UsbInitError::QueueHeadAlignment))
    );
}

#[test]
fn bus_reset_is_reported_and_counted() {
    let mut device = device();
    device.runtime.set_enabled(EndpointAddress::from_parts(1, Direction::Out), true);
    let (result, ops) = device.poll(InterruptRegisters {
        usbsts: UsbStatus::new_with_raw_value(0).with_reset_received(true),
        endptsetupstat: EndpointSetupStatus::new_with_raw_value(0),
        endptcomplete: EndpointBitmap::new_with_raw_value(0),
        otgsc: OtgSc::new_with_raw_value(0),
        portsc1: PortSc1::new_with_raw_value(0),
    });
    assert!(result.reset);
    assert!(result.has_any_event());
    assert!(ops.contains(&UsbOp::WriteUsbSts(UsbStatus::new_with_raw_value(1 << 6))));
    assert_eq!(device.runtime.reset_count(), 1);
    assert!(!device.runtime.is_enabled(EndpointAddress::from_parts(1, Direction::Out)));
    assert_eq!(device.runtime.take_event(), Some(Event::Reset));
}

#[test]
fn primed_transfer_is_reported_with_its_length() {
    let mut device = device();
    let ep1_out = EndpointAddress::from_parts(1, Direction::Out);
    let ops = device.prime_out(ep1_out, 0x20_0000, 512, 64, idle()).unwrap();
    assert_eq!(ops[0], UsbOp::Invalidate { addr: 0x20_0000, len: 512 });
    assert_eq!(device.take_transfer_complete(ep1_out, false, 0), Ok(None));
    let report = device.take_transfer_complete(ep1_out, true, 24 << 16).unwrap().unwrap();
    assert_eq!(
        report,
        TransferReport { requested_bytes: 64, actual_bytes: 40, token: 24 << 16 }
    );
    let failed = device.take_transfer_complete(ep1_out, true, 0x40).unwrap_err();
    assert_eq!(failed, UsbError::TransferFailed { addr: ep1_out, token: 0x40 });
}

#[test]
fn transfers_are_checked() {
    let mut device = device();
    let ep1_out = EndpointAddress::from_parts(1, Direction::Out);
    let ep1_in = EndpointAddress::from_parts(1, Direction::In);
    let ep9 = EndpointAddress::from_parts(9, Direction::Out);
    assert_eq!(
        device.prime_out(ep1_out, 0x20_0000, 512, 64, busy()).err(),
        Some(UsbError::EndpointBusy(ep1_out))
    );
    assert_eq!(
        device.prime_out(ep1_out, 0x20_0000, 32, 64, idle()).err(),
        Some(UsbError::BufferTooSmall { requested: 64, buffer_len: 32 })
    );
    assert_eq!(
        device.prime_out(ep1_out, 0x20_0000, 65_536, 0x8000, idle()).err(),
        Some(UsbError::TransferTooLarge(0x8000))
    );
    assert_eq!(
        device.prime_out(ep1_in, 0x20_0000, 512, 64, idle()).err(),
        Some(UsbError::InvalidEndpoint(1))
    );
    assert_eq!(
        device.prime_out(ep9, 0x20_0000, 512, 64, idle()).err(),
        Some(UsbError::InvalidEndpoint(9))
    );
    assert!(matches!(
        device.prime_out(ep1_out, 0x20_0001, 512, 64, idle()),
        Err(UsbError::Init(UsbInitError::DmaAlignment(_)))
    ));
    assert_eq!(
        device.abort_ep0_state(false, true).err(),
        Some(UsbError::EndpointFlushTimedOut(ep0_addr(Direction::Out)))
    );
}

#[test]
fn control_registers_hold_both_directions_apart() {
    let out = EndptCtrlUpdate::Configure {
        way: Direction::Out,
        ep_type: EndpointType::Bulk,
        enable: true,
    };
    let enabled = out.apply(0);
    assert_eq!(enabled & 0xFFFF, 0x80 | 0x40 | (2 << 2));
    let stalled = EndptCtrlUpdate::Stall { way: Direction::In, stalled: true }.apply(enabled);
    assert_eq!(stalled & 0xFFFF, enabled & 0xFFFF);
    assert_eq!(stalled & 0x1_0000, 0x1_0000);
}

#[test]
fn waits_are_bounded() {
    let addr = EndpointAddress::from_parts(1, Direction::Out);
    let set = EndpointBitmap::new_with_raw_value(0).with_rx(2);
    let clear = EndpointBitmap::new_with_raw_value(0);
    let mut wait = FlushWait::new(addr);
    assert_eq!(wait.step(clear, set, clear), WaitStep::Again);
    assert_eq!(wait.step(clear, clear, clear), WaitStep::Done);
    assert_eq!(wait.error(), UsbError::EndpointFlushTimedOut(addr));
    let mut wait = ResetWait::new();
    let mut reads = 1;
    while wait.step(UsbCommand::new_with_raw_value(2)) == WaitStep::Again {
        reads += 1;
    }
    assert_eq!(reads, 10_000);
}

#[test]
fn setup_packet_bytes_are_little_endian() {
    let controller = UsbController::new(UsbId::Usb1);
    let armed = UsbCommand::new_with_raw_value(0).with_setup_tripwire(true);
    assert_eq!(
        controller.read_setup_packet(0x0403_0201, 0x0807_0605, armed),
        Some([1, 2, 3, 4, 5, 6, 7, 8])
    );
    assert_eq!(
        controller.read_setup_packet(0x0403_0201, 0x0807_0605, UsbCommand::new_with_raw_value(0)),
        None
    );
}

#[test]
fn descriptors_are_linked_under_the_tripwire() {
    let mut device = device();
    let ep1_out = EndpointAddress::from_parts(1, Direction::Out);
    let queue_head = device.layout.queue_head_address(ep1_out);
    let attempt = [
        UsbOp::ModifyUsbCmd(CommandUpdate::AddDtdTripwire(true)),
        UsbOp::AttachDescriptor(ep1_out),
        UsbOp::Clean { addr: queue_head, len: 64 },
    ];
    let ops = device.prime_out(ep1_out, 0x20_0000, 512, 64, idle()).unwrap();
    assert_eq!(ops[1..4], attempt);
    assert_eq!(ops[4], UsbOp::AwaitLink(ep1_out));
    assert_eq!(ops[7], UsbOp::WriteEndptPrime(EndpointBitmap::new_with_raw_value(2)));
    let cleared = UsbCommand::new_with_raw_value(1);
    assert_eq!(device.link_step(ep1_out, cleared), (false, attempt.to_vec()));
    let standing = CommandUpdate::AddDtdTripwire(true).apply(cleared);
    assert_eq!(standing.raw_value(), 1 << 14 | 1);
    assert_eq!(
        device.link_step(ep1_out, standing),
        (true, vec![UsbOp::ModifyUsbCmd(CommandUpdate::AddDtdTripwire(false))])
    );
    assert_eq!(CommandUpdate::AddDtdTripwire(false).apply(standing), cleared);
}

#[test]
fn transfers_need_a_cache_that_is_ready() {
    let mut device = device();
    let ep1_out = EndpointAddress::from_parts(1, Direction::Out);
    let unready = EndpointSeen { cache_ready: false, ..idle() };
    let unavailable = Some(UsbError::Init(UsbInitError::DmaAlignment(AlignmentError::Unavailable)));
    assert_eq!(device.prime_out(ep1_out, 0x20_0000, 512, 64, unready).err(), unavailable);
    assert_eq!(device.resources.requested(ep1_out), 0);
    assert_eq!(device.prime_ep0_in_status(unready).err(), unavailable);
    let busy_and_unready = EndpointSeen { cache_ready: false, ..busy() };
    assert_eq!(
        device.prime_ep0_in_status(busy_and_unready).err(),
        Some(UsbError::EndpointBusy(ep0_addr(Direction::In)))
    );
    assert_eq!(device.finish_out(false, 0x20_0000, 512).err(), unavailable);
    assert_eq!(
        device.finish_out(true, 0x20_0000, 512),
        Ok(UsbOp::Invalidate { addr: 0x20_0000, len: 512 })
    );
}

#[test]
fn queue_heads_are_taken_once() {
    let mut program = QueueHeadsTaken::new();
    let mut storage = EndpointQueueHeadStorage::new();
    let mut other = EndpointQueueHeadStorage::default();
    let heads = storage.take(&mut program).unwrap();
    let mut head = heads.endpoint(1, Direction::In);
    assert_eq!(head, EndpointQueueHead::new());
    head.attach_dtd(0x1040);
    heads.set_endpoint(1, Direction::In, head);
    assert!(other.take(&mut program).is_none());
    assert!(other.heads.is_none());
    assert!(storage.take(&mut program).is_none());
    assert_eq!(storage.heads.unwrap().endpoint(1, Direction::In), head);
}

#[test]
fn endpoints_are_allocated_once() {
    let mut driver = Driver::new(UsbId::Usb0);
    let first = driver
        .alloc_endpoint(Direction::Out, EndpointType::Bulk, None, 64, 0, 256)
        .unwrap();
    let second = driver
        .alloc_endpoint(Direction::Out, EndpointType::Bulk, None, 64, 0, 256)
        .unwrap();
    assert_eq!(first.addr, EndpointAddress::from_parts(1, Direction::Out));
    assert_eq!(second.addr, EndpointAddress::from_parts(2, Direction::Out));
    assert_eq!(
        driver.alloc_endpoint(Direction::Out, EndpointType::Bulk, Some(first.addr), 64, 0, 256),
        Err(EndpointAllocError)
    );
    assert_eq!(
        driver.alloc_endpoint(Direction::In, EndpointType::Bulk, None, 512, 0, 256),
        Err(EndpointAllocError)
    );
}

#[test]
fn failed_driver_reports_lost_power_once() {
    let mut rt = ControllerRuntime::new();
    rt.push_event(EVENT_RESET);
    rt.set_enabled(ep0_addr(Direction::Out), true);
    assert_eq!(fail_driver(&mut rt), vec![Wake::Bus, Wake::Control, Wake::AllEndpoints]);
    assert!(!rt.is_enabled(ep0_addr(Direction::Out)));
    assert_eq!(poll_bus(&mut rt), BusPoll::Failed);
    assert_eq!(poll_bus(&mut rt), BusPoll::Pending);
    rt.push_event(EVENT_SUSPEND);
    assert_eq!(poll_bus(&mut rt), BusPoll::Ready(Event::Suspend));
    assert_eq!(
        check_endpoint(&rt, ep0_addr(Direction::Out), 0),
        Err(EndpointError::Disabled)
    );
    assert_eq!(
        map_usb_error(UsbError::BufferTooSmall { requested: 2, buffer_len: 1 }),
        EndpointError::BufferOverflow
    );
    assert_eq!(map_usb_error(UsbError::UnsupportedRequest), EndpointError::Disabled);
}

#[test]
fn captured_setup_packet_aborts_the_transfer() {
    let mut shared = shared();
    shared.control.start_data_in(true);
    let packet = [0x80, 6, 0, 1, 0, 0, 18, 0];
    let capture = SetupCapture { packet: Some(packet), out_flushed: true, in_flushed: true };
    let (taken, ops) = shared.control_take_setup_packet(capture);
    assert_eq!(taken, Ok(Some(packet)));
    assert!(!ops.is_empty());
    assert_eq!(shared.control.phase, ControlPhase::Idle);
    let capture = SetupCapture { packet: None, out_flushed: true, in_flushed: true };
    assert_eq!(shared.control_take_setup_packet(capture).0, Ok(None));
    let stuck = SetupCapture { packet: Some(packet), out_flushed: false, in_flushed: true };
    assert_eq!(
        shared.control_take_setup_packet(stuck).0,
        Err(UsbError::EndpointFlushTimedOut(ep0_addr(Direction::Out)))
    );
}

#[test]
fn control_data_waits_for_a_larger_buffer() {
    let mut shared = shared();
    shared.control.start_data_out(true);
    let report = TransferReport { requested_bytes: 64, actual_bytes: 4, token: 0 };
    let mut small = vec![0u8; 2];
    assert_eq!(
        shared.control_take_out_data(false, false, Ok(Some(report)), b"data", &mut small),
        Err(UsbError::BufferTooSmall { requested: 4, buffer_len: 2 })
    );
    assert_eq!(small, vec![0, 0]);
    let mut large = vec![0u8; 6];
    assert_eq!(
        shared.control_take_out_data(false, false, Ok(None), b"", &mut large),
        Ok(ControlPoll::Ready(OutCompletion::AwaitingAccept(4)))
    );
    assert_eq!(&large[..4], b"data");
    assert_eq!(shared.control.phase, ControlPhase::AwaitingAccept);
}

#[test]
fn endpoint_data_waits_for_a_larger_buffer() {
    let mut shared = shared();
    let ep1_out = EndpointAddress::from_parts(1, Direction::Out);
    let report = TransferReport { requested_bytes: 64, actual_bytes: 40, token: 0 };
    let received = vec![9u8; 512];
    let mut scratch = vec![0u8; 512];
    let (outcome, ops) = shared.endpoint_take_out_data(
        ep1_out, Ok(Some(report)), &received, &mut scratch, 64, 16, idle(),
    );
    assert_eq!(outcome, Err(EndpointError::BufferOverflow));
    assert!(ops.is_empty());
    let (outcome, ops) = shared.endpoint_take_out_data(
        ep1_out, Ok(None), &received, &mut scratch, 64, 64, idle(),
    );
    assert_eq!(outcome, Ok(Some(40)));
    assert!(!ops.is_empty());
    assert_eq!(&scratch[..41], &[&[9u8; 40][..], &[0u8][..]].concat()[..]);
}

#[test]
fn bus_recovers_from_a_failed_start() {
    let mut shared = shared();
    let mut bus = UsbBus { id: UsbId::Usb0 };
    let stuck = InitRegisters { usbcmd: UsbCommand::new_with_raw_value(2), ..registers() };
    let (ops, wakes) = bus.enable(&mut shared, stuck);
    assert!(ops.is_empty());
    assert_eq!(wakes, vec![Wake::Bus, Wake::Control, Wake::AllEndpoints]);
    assert!(shared.device.runtime.has_failed());
    let (ops, wakes) = bus.enable(&mut shared, registers());
    assert!(!ops.is_empty());
    assert!(wakes.is_empty());
    assert!(!shared.device.runtime.has_failed());
    shared.device.runtime.push_event(EVENT_RESET);
    let (event, ops, wakes) = bus.poll(&mut shared);
    assert_eq!(event, Some(Event::Reset));
    assert!(!ops.is_empty());
    assert!(wakes.is_empty());
    let addr = EndpointAddress::from_parts(1, Direction::In);
    let wakes = bus.finish_endpoint_change(&mut shared, addr, Ok(()));
    assert_eq!(wakes, vec![Wake::Control, Wake::Endpoint(addr)]);
    assert!(!bus.endpoint_is_stalled(&shared, addr));
    assert!(!bus.disable(&mut shared, OtgSc::new_with_raw_value(0)).is_empty());
    assert!(!shared.device.runtime.is_enabled(ep0_addr(Direction::Out)));
}

#[test]
fn endpoint_handles_follow_the_transfer() {
    let mut shared = shared();
    let info = EndpointInfo {
        addr: EndpointAddress::from_parts(1, Direction::In),
        ep_type: EndpointType::Bulk,
        max_packet_size: 64,
        interval_ms: 0,
    };
    let endpoint = EndpointIn { id: UsbId::Usb0, info };
    assert_eq!(endpoint.write_step(&shared, 0), WriteStep::Disabled);
    shared.device.runtime.set_enabled(info.addr, true);
    assert_eq!(endpoint.write_step(&shared, 0), WriteStep::Start);
    assert_eq!(endpoint.write_step(&shared, 1), WriteStep::Disabled);
    shared.endpoint_write_in(info.addr, 5, idle()).unwrap();
    assert_eq!(endpoint.write_step(&shared, 0), WriteStep::Await);
    assert_eq!(
        shared.endpoint_write_in(info.addr, 513, idle()),
        Err(EndpointError::BufferOverflow)
    );
    let out = EndpointOut {
        id: UsbId::Usb0,
        info: EndpointInfo { addr: EndpointAddress::from_parts(1, Direction::Out), ..info },
    };
    let report = TransferReport { requested_bytes: 64, actual_bytes: 3, token: 0 };
    let received: Vec<u8> = (0..512u32).map(|i| i as u8).collect();
    let mut buf = vec![7u8; 4];
    let (result, ops) = out.finish_read(&mut shared, Ok(Some(report)), &received, &mut buf, idle());
    assert_eq!(result, Some(Ok(3)));
    assert!(!ops.is_empty());
    assert_eq!(buf, vec![0, 1, 2, 7]);
}

fn setup(bytes: [u8; 8]) -> SetupPacket {
    SetupPacket::from_bytes(bytes)
}

fn both(seen: EndpointSeen) -> ControlSeen {
    ControlSeen { to_host: seen, from_host: seen }
}

#[test]
fn device_descriptor_is_sent_up_to_the_requested_length() {
    let mut device = device();
    let mut action = PendingStatusAction::Nothing;
    let request = setup([0x80, 6, 0, 1, 0, 0, 8, 0]);
    assert!(request.direction_in());
    assert_eq!((request.descriptor_type(), request.descriptor_index()), (1, 0));
    let (ops, result) = handle_setup_packet(&mut device, request, 0, &mut action, both(idle()));
    assert_eq!(result, Ok(()));
    assert!(!ops.is_empty());
    assert_eq!(&device.resources.ep0_in_buffer.0[..8], &DEVICE_DESCRIPTOR[..8]);
    assert_eq!(device.resources.requested(ep0_addr(Direction::In)), 8);
}

#[test]
fn requests_are_answered_or_refused() {
    let mut device = device();
    let mut action = PendingStatusAction::Nothing;
    let (_, result) = handle_setup_packet(
        &mut device, setup([0, 9, 1, 0, 0, 0, 0, 0]), 0, &mut action, both(idle()),
    );
    assert_eq!(result, Ok(()));
    assert_eq!(action, PendingStatusAction::SetConfiguration(1));
    let (_, result) = handle_setup_packet(
        &mut device, setup([0, 9, 2, 0, 0, 0, 0, 0]), 0, &mut action, both(idle()),
    );
    assert_eq!(result, Err(UsbError::UnsupportedRequest));
    assert_eq!(action, PendingStatusAction::Nothing);
    let (ops, result) = handle_setup_packet(
        &mut device, setup([0, 5, 42, 0, 0, 0, 0, 0]), 0, &mut action, both(idle()),
    );
    assert_eq!(result, Ok(()));
    assert_eq!(ops[0], UsbOp::WriteDeviceAddr(staged_device_address(42)));
    let (_, result) = handle_setup_packet(
        &mut device, setup([0xC0, 0x5a, 0, 0, 0, 0, 8, 0]), 0, &mut action, both(idle()),
    );
    assert_eq!(result, Ok(()));
    assert_eq!(&device.resources.ep0_in_buffer.0[..8], b"zynq-usb");
    let (_, result) = handle_setup_packet(
        &mut device, setup([0x80, 8, 0, 0, 0, 0, 1, 0]), 7, &mut action, both(busy()),
    );
    assert_eq!(result, Err(UsbError::EndpointBusy(ep0_addr(Direction::In))));
    assert_eq!(device.resources.ep0_in_buffer.0[0], 7);
}

#[test]
fn string_descriptors_hold_two_bytes_per_character() {
    let mut out = vec![0u8; 64];
    assert_eq!(write_string_descriptor("0001", &mut out), 10);
    assert_eq!(&out[..10], &[10, 3, b'0', 0, b'0', 0, b'0', 0, b'1', 0]);
    let mut out = vec![0xEEu8; 7];
    assert_eq!(write_string_descriptor("abcdef", &mut out), 6);
    assert_eq!(out, vec![6, 3, b'a', 0, b'b', 0, 0xEE]);
}

/// Takes a configuration over, where the accesses end as `outcomes` says and then well.
/// Returns how often accesses were performed.
fn configure(
    device: &mut UsbDevice,
    session: &mut Session,
    value: u8,
    outcomes: &[Result<(), UsbError>],
) -> (usize, Result<(), UsbError>) {
    let mut change = apply_configuration(value, 0x20_0000);
    let mut outcome = Ok(());
    let mut performed: usize = 0;
    loop {
        let Session { configured, configuration_value, .. } = session;
        match change.step(device, outcome, idle(), configured, configuration_value) {
            ApplyAction::Perform(_) => {
                outcome = outcomes.get(performed).copied().unwrap_or(Ok(()));
                performed += 1;
            }
            ApplyAction::Finish(result) => return (performed, result),
        }
    }
}

#[test]
fn failed_flush_keeps_the_configuration() {
    let ep = |dir| EndpointAddress::from_parts(1, dir);
    for (outcomes, failing, in_enabled) in [
        (vec![Err(UsbError::EndpointFlushTimedOut(ep(Direction::Out)))], Direction::Out, true),
        (
            vec![Ok(()), Err(UsbError::EndpointFlushTimedOut(ep(Direction::In)))],
            Direction::In,
            false,
        ),
    ] {
        let mut device = device();
        let mut session = Session::new();
        assert_eq!(configure(&mut device, &mut session, 1, &[]).1, Ok(()));
        let (performed, result) = configure(&mut device, &mut session, 0, &outcomes);
        assert_eq!(performed, outcomes.len());
        assert_eq!(result, Err(UsbError::EndpointFlushTimedOut(ep(failing))));
        assert!(session.configured);
        assert_eq!(session.configuration_value, 1);
        assert!(!device.runtime.is_enabled(ep(Direction::Out)));
        assert_eq!(device.runtime.is_enabled(ep(Direction::In)), in_enabled);
        assert_eq!(configure(&mut device, &mut session, 0, &[]), (2, Ok(())));
        assert!(!session.configured);
        assert_eq!(session.configuration_value, 0);
    }
}

#[test]
fn configuration_enables_the_bulk_endpoints() {
    let mut device = device();
    let mut session = Session::new();
    session.pending_status_action = PendingStatusAction::SetConfiguration(1);
    let value = session.on_status_complete().unwrap();
    assert_eq!(session.on_status_complete(), None);
    let (performed, result) = configure(&mut device, &mut session, value, &[]);
    assert_eq!(performed, 3);
    assert_eq!(result, Ok(()));
    assert!(session.configured);
    assert_eq!(session.configuration_value, 1);
    assert!(device.runtime.is_enabled(EndpointAddress::from_parts(1, Direction::In)));
    let report = TransferReport { requested_bytes: 64, actual_bytes: 5, token: 0 };
    assert_eq!(session.echo_len(report), Some(5));
    assert_eq!(session.echo_len(TransferReport { actual_bytes: 0, ..report }), None);
    session.on_bus_reset();
    assert_eq!(session, Session::new());
    let ops = session.finish_setup(&mut device, (Vec::new(), Err(UsbError::UnsupportedRequest)));
    assert!(!ops.is_empty());
    assert!(device.runtime.is_stalled(ep0_addr(Direction::In)));
}

#[test]
fn multiplexer_pins_follow_the_selection() {
    let (mut mux, writes) = UartMultiplexer::new();
    assert_eq!(writes.len(), 3);
    assert_eq!(
        mux.select(UartSel::UartliteToUart16550),
        vec![
            PinWrite { pin: 2, level: PinState::High },
            PinWrite { pin: 1, level: PinState::Low },
            PinWrite { pin: 0, level: PinState::High },
        ]
    );
    assert_eq!(UartSel::Uart16550.next(), UartSel::Uart0);
    assert_eq!(UartSel::Uart0ToUartlite.next(), UartSel::Uart0ToUartlite);
    assert_eq!(next_led(7, 8), 0);
    assert_eq!(next_led(3, 8), 4);
    assert_eq!(next_duty(100), 0);
    assert_eq!(next_duty(95), 100);
}
