//! The driver that an Embassy USB stack runs on.
//!
//! A control transfer moves through stages, and a setup packet can end any of
//! them. [`ControlState`] tracks the stage. Received data that a caller has no
//! room for is kept until it asks with more room.
use vstd::prelude::*;

use crate::bits;
use crate::hal::usb::descriptor::{TransferReport, Transfers, UsbResources};
use crate::hal::usb::device::{
    abort_ops, bus_reset_ops, control_len, copy_front, device_mode_ops, disable_ops, ep0_ops,
    prime_ops, stall_ops, transfer_error, EndpointSeen, InitRegisters, UsbDevice, UsbOp,
};
use crate::hal::usb::embassy::{
    accept_request, accepts, check_endpoint, clear_driver_failure, enable_endpoint,
    enables_endpoint, endpoint_error, map_usb_error, may_transfer, Driver, EndpointBuffers,
    EndpointError,
};
use crate::hal::usb::runtime::{first_event, ControllerRuntime, Event};
use crate::hal::usb::{
    Direction, EndpointAddress, EndpointInfo, UsbError, UsbId, CONTROL_BUFFER_SIZE, MAX_ENDPOINTS,
};
use crate::pac::usb::OtgSc;

verus! {

/// Stage of a control transfer.
#[derive(Debug, Clone, Copy, PartialEq, Eq)]
pub enum ControlPhase {
    Idle,
    SetupPending([u8; 8]),
    DataOut { last: bool },
    DataIn { last: bool },
    AwaitingAccept,
    StatusOut,
    StatusIn,
}

/// Outcome of polling a control transfer.
#[derive(Debug, Clone, Copy, PartialEq, Eq, Structural)]
pub enum ControlPoll<T> {
    Pending,
    Ready(T),
    /// A setup packet has overtaken the transfer.
    Interrupted,
}

/// What a completed OUT transfer means.
#[derive(Debug, Clone, Copy, PartialEq, Eq, Structural)]
pub enum OutCompletion {
    Data(usize),
    AwaitingAccept(usize),
    StatusComplete,
}

impl OutCompletion {
    /// The number of bytes that were received.
    pub open spec fn bytes(self) -> usize {
        match self {
            OutCompletion::Data(len) => len,
            OutCompletion::AwaitingAccept(len) => len,
            OutCompletion::StatusComplete => 0,
        }
    }

    pub fn len(self) -> (r: usize)
        ensures
            r == self.bytes(),
    {
        match self {
            OutCompletion::Data(len) | OutCompletion::AwaitingAccept(len) => len,
            OutCompletion::StatusComplete => 0,
        }
    }
}

/// What a completed IN transfer means.
#[derive(Debug, Clone, Copy, PartialEq, Eq, Structural)]
pub enum InCompletion {
    DataComplete,
    NeedsStatusOut,
    StatusComplete,
}

/// A look for a setup packet: what was read from the controller, and, where there
/// was one, whether the two directions of the control endpoint could be flushed.
#[derive(Debug, Clone, Copy, PartialEq, Eq)]
pub struct SetupCapture {
    pub packet: Option<[u8; 8]>,
    pub out_flushed: bool,
    pub in_flushed: bool,
}

impl SetupCapture {
    /// What the look does to the device: a packet aborts the control transfer.
    pub open spec fn overtakes(
        self,
        before: &UsbDevice,
        after: &UsbDevice,
        ops: Seq<UsbOp>,
    ) -> bool {
        if self.packet is Some && self.failure() is None {
            &&& ops == abort_ops(before.layout)
            &&& after.resources@ == before.resources@.cleared_ep0()
            &&& after.runtime == before.runtime.ep0_aborted()
        } else {
            &&& ops == Seq::<UsbOp>::empty()
            &&& after.same(before)
        }
    }

    /// A packet was there, but the transfer that it overtakes cannot be aborted.
    pub open spec fn failure(self) -> Option<UsbError> {
        if self.packet is None || (self.out_flushed && self.in_flushed) {
            None
        } else {
            Some(
                UsbError::EndpointFlushTimedOut(
                    EndpointAddress::of(
                        0,
                        if self.out_flushed {
                            Direction::In
                        } else {
                            Direction::Out
                        },
                    ),
                ),
            )
        }
    }
}

/// Tracks the stage of the control transfer.
#[derive(Debug, Clone, Copy, PartialEq, Eq)]
pub struct ControlState {
    pub phase: ControlPhase,
}

/// The phase in which a completed OUT transfer leaves a control transfer.
pub open spec fn after_out(phase: ControlPhase) -> ControlPhase {
    match phase {
        ControlPhase::DataOut { last: true } => ControlPhase::AwaitingAccept,
        _ => ControlPhase::Idle,
    }
}

/// What a completed OUT transfer of `len` bytes means in a phase.
pub open spec fn out_completion(phase: ControlPhase, len: usize) -> OutCompletion {
    match phase {
        ControlPhase::DataOut { last: true } => OutCompletion::AwaitingAccept(len),
        ControlPhase::StatusOut => OutCompletion::StatusComplete,
        _ => OutCompletion::Data(len),
    }
}

/// What a completed IN transfer means in a phase.
pub open spec fn in_completion(phase: ControlPhase) -> InCompletion {
    match phase {
        ControlPhase::DataIn { last: true } => InCompletion::NeedsStatusOut,
        ControlPhase::StatusIn => InCompletion::StatusComplete,
        _ => InCompletion::DataComplete,
    }
}

impl ControlState {
    pub fn new() -> (r: Self)
        ensures
            r.phase is Idle,
    {
        ControlState { phase: ControlPhase::Idle }
    }

    /// Keeps a setup packet. It replaces whatever was going on.
    pub fn record_setup_packet(&mut self, packet: [u8; 8])
        ensures
            final(self).phase == ControlPhase::SetupPending(packet),
    {
        self.phase = ControlPhase::SetupPending(packet);
    }

    pub fn clear(&mut self)
        ensures
            final(self).phase is Idle,
    {
        self.phase = ControlPhase::Idle;
    }

    /// The phase after a look for a setup packet.
    pub open spec fn captured(self, capture: SetupCapture) -> ControlPhase {
        match capture.packet {
            Some(packet) if capture.failure() is None => ControlPhase::SetupPending(packet),
            _ => self.phase,
        }
    }

    /// Looks for a setup packet. Returns whether one is pending. A new one aborts
    /// the control transfer and replaces one that was kept.
    pub fn capture_setup_packet(&mut self, device: &mut UsbDevice, capture: SetupCapture) -> (r: (
        Result<bool, UsbError>,
        Vec<UsbOp>,
    ))
        requires
            old(device).wf(),
        ensures
            final(device).same_frame(old(device)),
            capture.overtakes(old(device), final(device), r.1@),
            final(self).phase == old(self).captured(capture),
            r.0 == match capture.failure() {
                Some(e) => Err::<bool, UsbError>(e),
                None => Ok(final(self).phase is SetupPending),
            },
    {
        if let Some(packet) = capture.packet {
            match device.abort_ep0_state(capture.out_flushed, capture.in_flushed) {
                Ok(ops) => {
                    self.record_setup_packet(packet);
                    return (Ok(true), ops);
                },
                Err(e) => {
                    let ops: Vec<UsbOp> = Vec::new();
                    assert(ops@ =~= Seq::<UsbOp>::empty());
                    return (Err(e), ops);
                },
            }
        }
        let ops: Vec<UsbOp> = Vec::new();
        assert(ops@ =~= Seq::<UsbOp>::empty());
        let pending = match self.phase {
            ControlPhase::SetupPending(_) => true,
            _ => false,
        };
        (Ok(pending), ops)
    }

    /// Takes the setup packet that is pending.
    pub fn take_setup_packet(&mut self) -> (r: Option<[u8; 8]>)
        ensures
            match old(self).phase {
                ControlPhase::SetupPending(packet) => r == Some(packet) && final(self).phase is Idle,
                _ => r is None && final(self).phase == old(self).phase,
            },
    {
        match self.phase {
            ControlPhase::SetupPending(packet) => {
                self.phase = ControlPhase::Idle;
                Some(packet)
            },
            _ => None,
        }
    }

    pub fn start_data_out(&mut self, last: bool)
        ensures
            final(self).phase == (ControlPhase::DataOut { last }),
    {
        self.phase = ControlPhase::DataOut { last };
    }

    pub fn finish_out(&mut self, len: usize) -> (r: OutCompletion)
        ensures
            r == out_completion(old(self).phase, len),
            final(self).phase == after_out(old(self).phase),
    {
        match self.phase {
            ControlPhase::DataOut { last: false } => {
                self.phase = ControlPhase::Idle;
                OutCompletion::Data(len)
            },
            ControlPhase::DataOut { last: true } => {
                self.phase = ControlPhase::AwaitingAccept;
                OutCompletion::AwaitingAccept(len)
            },
            ControlPhase::StatusOut => {
                self.phase = ControlPhase::Idle;
                OutCompletion::StatusComplete
            },
            _ => {
                self.phase = ControlPhase::Idle;
                OutCompletion::Data(len)
            },
        }
    }

    /// Starts a data stage from the host.
    pub fn prime_out_data(
        &mut self,
        device: &mut UsbDevice,
        expected_len: usize,
        last: bool,
        seen: EndpointSeen,
    ) -> (r: Result<(usize, Vec<UsbOp>), UsbError>)
        requires
            old(device).wf(),
        ensures
            final(device).same_frame(old(device)),
            final(device).runtime == old(device).runtime,
            final(self).phase == (ControlPhase::DataOut { last }),
            ({
                let len = if expected_len < CONTROL_BUFFER_SIZE {
                    expected_len
                } else {
                    CONTROL_BUFFER_SIZE
                };
                match r {
                    Ok((n, ops)) => n == len && old(device).starts_ep0(
                        final(device),
                        Direction::Out,
                        len,
                        seen,
                        Ok(ops),
                    ),
                    Err(e) => old(device).starts_ep0(
                        final(device),
                        Direction::Out,
                        len,
                        seen,
                        Err(e),
                    ),
                }
            }),
    {
        self.start_data_out(last);
        device.prime_ep0_out_data(expected_len, seen)
    }

    /// Ends a poll for data from the host, after a look for a setup packet.
    ///
    /// `outcome` is what [`UsbDevice::take_transfer_complete`] said; where a
    /// transfer is reported, `received` is what the control buffer holds.
    pub fn take_out_data(
        &mut self,
        device: &UsbDevice,
        setup_pending: bool,
        outcome: Result<Option<TransferReport>, UsbError>,
        received: &[u8],
        dst: &mut Vec<u8>,
    ) -> (r: Result<ControlPoll<OutCompletion>, UsbError>)
        requires
            outcome matches Ok(Some(report)) ==> report.actual_bytes <= received@.len(),
        ensures
            takes_out(*old(self), *final(self), setup_pending, outcome, received@, old(dst)@, final(dst)@, r),
    {
        if setup_pending {
            return Ok(ControlPoll::Interrupted);
        }
        let report = match outcome {
            Ok(report) => report,
            Err(e) => return Err(e),
        };
        match device.take_ep0_out_data(report, received, dst) {
            Ok(Some(len)) => Ok(ControlPoll::Ready(self.finish_out(len))),
            Ok(None) => Ok(ControlPoll::Pending),
            Err(e) => Err(e),
        }
    }

    pub fn start_data_in(&mut self, last: bool)
        ensures
            final(self).phase == (ControlPhase::DataIn { last }),
    {
        self.phase = ControlPhase::DataIn { last };
    }

    pub fn finish_in(&mut self) -> (r: InCompletion)
        ensures
            r == in_completion(old(self).phase),
            final(self).phase is Idle,
    {
        match self.phase {
            ControlPhase::DataIn { last: false } => {
                self.phase = ControlPhase::Idle;
                InCompletion::DataComplete
            },
            ControlPhase::DataIn { last: true } => {
                self.phase = ControlPhase::Idle;
                InCompletion::NeedsStatusOut
            },
            ControlPhase::StatusIn => {
                self.phase = ControlPhase::Idle;
                InCompletion::StatusComplete
            },
            _ => {
                self.phase = ControlPhase::Idle;
                InCompletion::DataComplete
            },
        }
    }

    /// Starts a data stage to the host, see [`UsbDevice::prime_ep0_in`].
    pub fn prime_in_data(
        &mut self,
        device: &mut UsbDevice,
        data: &[u8],
        requested_len: usize,
        last: bool,
        seen: EndpointSeen,
    ) -> (r: Result<(usize, Vec<UsbOp>), UsbError>)
        requires
            old(device).wf(),
        ensures
            final(self).phase == (ControlPhase::DataIn { last }),
            sends_control(old(device), final(device), data@, requested_len, seen, r),
    {
        self.start_data_in(last);
        device.prime_ep0_in(data, requested_len, seen)
    }

    /// Ends a poll for the end of a transfer to the host, after a look for a setup packet.
    pub fn take_in_complete(
        &mut self,
        setup_pending: bool,
        outcome: Result<Option<TransferReport>, UsbError>,
    ) -> (r: Result<ControlPoll<InCompletion>, UsbError>)
        ensures
            if setup_pending {
                r == Ok::<ControlPoll<InCompletion>, UsbError>(ControlPoll::Interrupted)
                    && final(self).phase == old(self).phase
            } else {
                match outcome {
                    Ok(Some(_)) => {
                        &&& r == Ok::<ControlPoll<InCompletion>, UsbError>(
                            ControlPoll::Ready(in_completion(old(self).phase)),
                        )
                        &&& final(self).phase is Idle
                    },
                    Ok(None) => {
                        &&& r == Ok::<ControlPoll<InCompletion>, UsbError>(ControlPoll::Pending)
                        &&& final(self).phase == old(self).phase
                    },
                    Err(e) => {
                        &&& r == Err::<ControlPoll<InCompletion>, UsbError>(e)
                        &&& final(self).phase == old(self).phase
                    },
                }
            },
    {
        if setup_pending {
            return Ok(ControlPoll::Interrupted);
        }
        match outcome {
            Ok(Some(_)) => Ok(ControlPoll::Ready(self.finish_in())),
            Ok(None) => Ok(ControlPoll::Pending),
            Err(e) => Err(e),
        }
    }

    /// Starts a status stage from the host.
    pub fn prime_out_status(&mut self, device: &mut UsbDevice, seen: EndpointSeen) -> (r: Result<
        Vec<UsbOp>,
        UsbError,
    >)
        requires
            old(device).wf(),
        ensures
            final(device).same_frame(old(device)),
            final(device).runtime == old(device).runtime,
            final(self).phase is StatusOut,
            old(device).starts_ep0(final(device), Direction::Out, 0, seen, r),
    {
        self.phase = ControlPhase::StatusOut;
        device.prime_ep0_out_status(seen)
    }

    /// Rejects the request.
    pub fn stall(&mut self, device: &mut UsbDevice) -> (r: Result<Vec<UsbOp>, UsbError>)
        ensures
            final(self).phase is Idle,
            final(device).same_frame(old(device)),
            final(device).resources@ == old(device).resources@,
            r is Ok,
            r->Ok_0@ == stall_ops(EndpointAddress::of(0, Direction::Out), true) + stall_ops(
                EndpointAddress::of(0, Direction::In),
                true,
            ),
            final(device).runtime == old(device).runtime.stalling(
                EndpointAddress::of(0, Direction::Out),
                true,
            ).stalling(EndpointAddress::of(0, Direction::In), true),
    {
        self.clear();
        device.stall_ep0()
    }

    /// Accepts the request and starts its status stage.
    pub fn accept(&mut self, device: &mut UsbDevice, seen: EndpointSeen) -> (r: (
        Vec<UsbOp>,
        Result<(), UsbError>,
    ))
        requires
            old(device).wf(),
        ensures
            final(self).phase is StatusIn,
            final(device).same_frame(old(device)),
            accepts(old(device), final(device), None, seen, r),
    {
        self.phase = ControlPhase::StatusIn;
        accept_request(device, None, seen)
    }

    /// Accepts a new device address, which is taken over after the status stage.
    pub fn accept_set_address(&mut self, device: &mut UsbDevice, addr: u8, seen: EndpointSeen) -> (r:
        (Vec<UsbOp>, Result<(), UsbError>))
        requires
            old(device).wf(),
            addr < 128,
        ensures
            final(self).phase is StatusIn,
            final(device).same_frame(old(device)),
            accepts(old(device), final(device), Some(addr), seen, r),
    {
        self.phase = ControlPhase::StatusIn;
        accept_request(device, Some(addr), seen)
    }
}

/// What polling for data from the host reports, with a buffer of `capacity` bytes.
pub open spec fn out_poll(
    phase: ControlPhase,
    setup_pending: bool,
    outcome: Result<Option<TransferReport>, UsbError>,
    capacity: nat,
) -> Result<ControlPoll<OutCompletion>, UsbError> {
    if setup_pending {
        Ok(ControlPoll::Interrupted)
    } else {
        match outcome {
            Err(e) => Err(e),
            Ok(None) => Ok(ControlPoll::Pending),
            Ok(Some(report)) => if report.actual_bytes > capacity {
                Err(
                    UsbError::BufferTooSmall {
                        requested: report.actual_bytes,
                        buffer_len: capacity as usize,
                    },
                )
            } else {
                Ok(ControlPoll::Ready(out_completion(phase, report.actual_bytes)))
            },
        }
    }
}

/// What polling for data from the host does.
pub open spec fn takes_out(
    before: ControlState,
    after: ControlState,
    setup_pending: bool,
    outcome: Result<Option<TransferReport>, UsbError>,
    received: Seq<u8>,
    dst: Seq<u8>,
    dst_after: Seq<u8>,
    r: Result<ControlPoll<OutCompletion>, UsbError>,
) -> bool {
    &&& r == out_poll(before.phase, setup_pending, outcome, dst.len())
    &&& if r matches Ok(ControlPoll::Ready(_)) {
        let len = outcome->Ok_0->Some_0.actual_bytes as int;
        &&& after.phase == after_out(before.phase)
        &&& dst_after == received.take(len) + dst.skip(len)
    } else {
        &&& after.phase == before.phase
        &&& dst_after == dst
    }
}

/// What starting a data stage to the host does to the device.
pub open spec fn sends_control(
    before: &UsbDevice,
    after: &UsbDevice,
    data: Seq<u8>,
    requested_len: usize,
    seen: EndpointSeen,
    r: Result<(usize, Vec<UsbOp>), UsbError>,
) -> bool {
    let len = control_len(data.len(), requested_len);
    let ep0_in = EndpointAddress::of(0, Direction::In);
    &&& after.controller == before.controller
    &&& after.layout == before.layout
    &&& after.runtime == before.runtime
    &&& after.resources.ep0_out_buffer@ == before.resources.ep0_out_buffer@
    &&& after.resources.ep0_in_buffer@ == data.take(len) + before.resources.ep0_in_buffer@.skip(len)
    &&& match seen.refusal(ep0_in) {
        Some(e) => {
            &&& r == Err::<(usize, Vec<UsbOp>), UsbError>(e)
            &&& after.resources@ == before.resources@
        },
        None => {
            &&& r is Ok
            &&& r->Ok_0.0 == len
            &&& r->Ok_0.1@ == ep0_ops(before.layout, Direction::In)
            &&& after.resources@ == before.resources@.primed(
                before.layout,
                ep0_in,
                before.layout.ep0_in_buffer,
                len as usize,
            )
        },
    }
}

/// A setup packet that was recorded is the one that is taken, whatever was going
/// on before, and it is taken once.
pub proof fn latest_setup_packet_wins(state: ControlState, first: [u8; 8], second: [u8; 8])
    ensures
        ({
            let capture = SetupCapture {
                packet: Some(second),
                out_flushed: true,
                in_flushed: true,
            };
            let pending = ControlState { phase: ControlPhase::SetupPending(first) };
            &&& pending.captured(capture) == ControlPhase::SetupPending(second)
            &&& state.captured(capture) == ControlPhase::SetupPending(second)
        }),
{
}

/// A control transfer to the host is followed by a status stage exactly after its
/// last packet, and a transfer from the host awaits acceptance exactly after its last.
pub proof fn last_packet_decides_the_next_stage(last: bool, len: usize)
    ensures
        (in_completion(ControlPhase::DataIn { last }) is NeedsStatusOut) == last,
        (after_out(ControlPhase::DataOut { last }) is AwaitingAccept) == last,
        (out_completion(ControlPhase::DataOut { last }, len) is AwaitingAccept) == last,
        out_completion(ControlPhase::DataOut { last }, len).bytes() == len,
{
}

/// Tasks that can be woken.
#[derive(Debug, Clone, Copy, PartialEq, Eq, Structural)]
pub enum Wake {
    Bus,
    Control,
    AllEndpoints,
    Endpoint(EndpointAddress),
}

/// The state that a failed driver is left in.
pub open spec fn failed_runtime(rt: ControllerRuntime) -> ControllerRuntime {
    ControllerRuntime { failed: true, event_flags: 0, ..rt.without_endpoints() }
}

/// Everyone who is woken when the driver fails.
pub open spec fn failure_wakes() -> Seq<Wake> {
    seq![Wake::Bus, Wake::Control, Wake::AllEndpoints]
}

/// Marks the driver as failed: no endpoint works and no event is pending until it
/// is enabled again, and every waiting task is woken to see that.
pub fn fail_driver(rt: &mut ControllerRuntime) -> (wakes: Vec<Wake>)
    ensures
        *final(rt) == failed_runtime(*old(rt)),
        wakes@ == failure_wakes(),
{
    rt.set_failed(true);
    rt.clear_endpoint_state();
    rt.clear_events();
    let wakes: Vec<Wake> = vec![Wake::Bus, Wake::Control, Wake::AllEndpoints];
    assert(wakes@ =~= seq![Wake::Bus, Wake::Control, Wake::AllEndpoints]);
    wakes
}

/// What a bus poll reports.
#[derive(Debug, Clone, Copy, PartialEq, Eq, Structural)]
pub enum BusPoll {
    Pending,
    Ready(Event),
    /// The driver had failed, which is reported once as lost power. The control
    /// pipe and the endpoints are woken.
    Failed,
}

/// Polls for a bus event. After a reset the caller calls
/// [`SharedState::reset_after_bus_reset`], and fails the driver where that does not work.
pub fn poll_bus(rt: &mut ControllerRuntime) -> (r: BusPoll)
    ensures
        old(rt).failed ==> r == BusPoll::Failed && *final(rt) == (ControllerRuntime {
            failed: false,
            ..*old(rt)
        }),
        !old(rt).failed ==> match first_event(old(rt).event_flags) {
            Some(event) => r == BusPoll::Ready(event) && *final(rt) == (ControllerRuntime {
                event_flags: old(rt).event_flags & !event.flag(),
                ..*old(rt)
            }),
            None => r == BusPoll::Pending && *final(rt) == *old(rt),
        },
{
    if rt.has_failed() {
        rt.set_failed(false);
        return BusPoll::Failed;
    }
    match rt.take_event() {
        Some(event) => BusPoll::Ready(event),
        None => BusPoll::Pending,
    }
}

/// What the end of a poll of a status stage to the host means. A stage that was
/// interrupted is no success.
pub fn status_in_poll_result(poll: ControlPoll<InCompletion>) -> (r: Option<
    Result<(), EndpointError>,
>)
    ensures
        r == match poll {
            ControlPoll::Ready(_) => Some(Ok::<(), EndpointError>(())),
            ControlPoll::Interrupted => Some(Err(EndpointError::Disabled)),
            ControlPoll::Pending => None,
        },
{
    match poll {
        ControlPoll::Ready(_) => Some(Ok(())),
        ControlPoll::Interrupted => Some(Err(EndpointError::Disabled)),
        ControlPoll::Pending => None,
    }
}

/// What a poll of a data stage to the host means to its caller.
pub fn in_poll_result(poll: Result<ControlPoll<InCompletion>, UsbError>) -> (r: Option<
    Result<InCompletion, EndpointError>,
>)
    ensures
        r == match poll {
            Ok(ControlPoll::Ready(done)) => Some(Ok::<InCompletion, EndpointError>(done)),
            Ok(ControlPoll::Pending) => None,
            Ok(ControlPoll::Interrupted) => Some(Err(EndpointError::Disabled)),
            Err(e) => Some(Err(endpoint_error(e))),
        },
{
    match poll {
        Ok(ControlPoll::Ready(done)) => Some(Ok(done)),
        Ok(ControlPoll::Pending) => None,
        Ok(ControlPoll::Interrupted) => Some(Err(EndpointError::Disabled)),
        Err(e) => Some(Err(map_usb_error(e))),
    }
}

/// What a poll of a stage from the host means to its caller. `scratch` holds the
/// data, and what fits `buf` is copied.
pub fn out_poll_result(
    poll: Result<ControlPoll<OutCompletion>, UsbError>,
    scratch: &[u8],
    buf: &mut Vec<u8>,
) -> (r: Option<Result<OutCompletion, EndpointError>>)
    requires
        poll matches Ok(ControlPoll::Ready(done)) ==> done.bytes() <= scratch@.len(),
    ensures
        match poll {
            Ok(ControlPoll::Ready(done)) => if done.bytes() > old(buf)@.len() {
                &&& r == Some(Err::<OutCompletion, EndpointError>(EndpointError::BufferOverflow))
                &&& final(buf)@ == old(buf)@
            } else {
                &&& r == Some(Ok::<OutCompletion, EndpointError>(done))
                &&& final(buf)@ == scratch@.take(done.bytes() as int) + old(buf)@.skip(
                    done.bytes() as int,
                )
            },
            Ok(ControlPoll::Pending) => r is None && final(buf)@ == old(buf)@,
            Ok(ControlPoll::Interrupted) => {
                &&& r == Some(Err::<OutCompletion, EndpointError>(EndpointError::Disabled))
                &&& final(buf)@ == old(buf)@
            },
            Err(e) => {
                &&& r == Some(Err::<OutCompletion, EndpointError>(endpoint_error(e)))
                &&& final(buf)@ == old(buf)@
            },
        },
{
    match poll {
        Ok(ControlPoll::Ready(done)) => {
            let len: usize = done.len();
            if len > buf.len() {
                Some(Err(EndpointError::BufferOverflow))
            } else {
                copy_front(buf, scratch, len);
                Some(Ok(done))
            }
        },
        Ok(ControlPoll::Pending) => None,
        Ok(ControlPoll::Interrupted) => Some(Err(EndpointError::Disabled)),
        Err(e) => Some(Err(map_usb_error(e))),
    }
}

/// What handing control data to a reader does: where it fits, the reader gets it
/// and nothing is kept; where it does not, all of it is kept for a later read.
pub open spec fn hands_over(
    done: OutCompletion,
    bytes: Seq<u8>,
    dst: Seq<u8>,
    dst_after: Seq<u8>,
    r: Result<ControlPoll<OutCompletion>, UsbError>,
    kept: Option<(OutCompletion, Seq<u8>)>,
) -> bool {
    if bytes.len() > dst.len() {
        &&& r == Err::<ControlPoll<OutCompletion>, UsbError>(
            UsbError::BufferTooSmall {
                requested: bytes.len() as usize,
                buffer_len: dst.len() as usize,
            },
        )
        &&& kept == Some((done, bytes))
        &&& dst_after == dst
    } else {
        &&& r == Ok::<ControlPoll<OutCompletion>, UsbError>(ControlPoll::Ready(done))
        &&& kept is None
        &&& dst_after == bytes + dst.skip(bytes.len() as int)
    }
}

/// Control data that its reader had no room for is not lost: a second read that
/// has room gets all of it, and then nothing is kept.
pub proof fn kept_control_data_is_read_later(
    done: OutCompletion,
    bytes: Seq<u8>,
    first: (Seq<u8>, Seq<u8>, Result<ControlPoll<OutCompletion>, UsbError>),
    second: (Seq<u8>, Seq<u8>, Result<ControlPoll<OutCompletion>, UsbError>),
    kept: Option<(OutCompletion, Seq<u8>)>,
    kept_after: Option<(OutCompletion, Seq<u8>)>,
)
    requires
        bytes.len() > first.0.len(),
        bytes.len() <= second.0.len(),
        hands_over(done, bytes, first.0, first.1, first.2, kept),
        kept matches Some((d, b)) ==> hands_over(d, b, second.0, second.1, second.2, kept_after),
    ensures
        second.1.take(bytes.len() as int) == bytes,
        second.2 == Ok::<ControlPoll<OutCompletion>, UsbError>(ControlPoll::Ready(done)),
        kept_after is None,
{
    assert(second.1.take(bytes.len() as int) =~= bytes);
}

/// The state that the driver's handles share.
pub struct SharedState {
    pub device: UsbDevice,
    pub out_info: [Option<EndpointInfo>; MAX_ENDPOINTS],
    pub in_info: [Option<EndpointInfo>; MAX_ENDPOINTS],
    pub buffers: EndpointBuffers,
    /// Length of received data that its reader had no room for.
    pub pending_out_len: [Option<usize>; MAX_ENDPOINTS],
    pub control_out_buffer: Vec<u8>,
    /// Control data that its reader had no room for, and its length.
    pub pending_control_out: Option<(OutCompletion, usize)>,
    pub control: ControlState,
    pub control_max_packet_size: u16,
}

impl SharedState {
    /// Data that is kept fits its buffer.
    pub open spec fn wf(&self) -> bool {
        &&& self.device.wf()
        &&& self.buffers.wf()
        &&& self.pending_control_out matches Some((_, len)) ==> len
            <= self.control_out_buffer@.len()
        &&& forall|k: int|
            0 <= k < MAX_ENDPOINTS ==> (#[trigger] self.pending_out_len@[k] matches Some(len)
                ==> len <= self.buffers.size)
    }

    pub open spec fn infos(&self, dir: Direction) -> Seq<Option<EndpointInfo>> {
        match dir {
            Direction::Out => self.out_info@,
            Direction::In => self.in_info@,
        }
    }

    /// The endpoints, their buffers and the packet size are those of `other`.
    pub open spec fn same_frame(&self, other: &Self) -> bool {
        &&& self.out_info@ == other.out_info@
        &&& self.in_info@ == other.in_info@
        &&& self.buffers == other.buffers
        &&& self.control_max_packet_size == other.control_max_packet_size
        &&& self.control_out_buffer@.len() == other.control_out_buffer@.len()
        &&& self.device.same_frame(&other.device)
    }

    /// The control data that is kept for its reader.
    pub open spec fn control_kept(&self) -> Option<(OutCompletion, Seq<u8>)> {
        match self.pending_control_out {
            Some((done, len)) => Some((done, self.control_out_buffer@.take(len as int))),
            None => None,
        }
    }

    /// What is kept for readers is that of `other`.
    pub open spec fn same_kept(&self, other: &Self) -> bool {
        &&& self.pending_out_len@ == other.pending_out_len@
        &&& self.pending_control_out == other.pending_control_out
        &&& self.control_out_buffer@ == other.control_out_buffer@
    }

    /// A driver state without endpoints and without anything kept.
    pub fn new(device: UsbDevice, buffers: EndpointBuffers, control_out_buffer: Vec<u8>) -> (r: Self)
        requires
            device.wf(),
            buffers.wf(),
        ensures
            r.wf(),
            r.device == device,
            r.buffers == buffers,
            r.control_out_buffer == control_out_buffer,
            r.out_info@ == Seq::new(8, |i: int| None::<EndpointInfo>),
            r.in_info@ == Seq::new(8, |i: int| None::<EndpointInfo>),
            r.pending_out_len@ == Seq::new(8, |i: int| None::<usize>),
            r.pending_control_out is None,
            r.control.phase is Idle,
            r.control_max_packet_size == 64,
    {
        let out_info: [Option<EndpointInfo>; MAX_ENDPOINTS] = [None;MAX_ENDPOINTS];
        let in_info: [Option<EndpointInfo>; MAX_ENDPOINTS] = [None;MAX_ENDPOINTS];
        let pending_out_len: [Option<usize>; MAX_ENDPOINTS] = [None;MAX_ENDPOINTS];
        assert(out_info@ =~= Seq::new(8, |i: int| None::<EndpointInfo>));
        assert(in_info@ =~= Seq::new(8, |i: int| None::<EndpointInfo>));
        assert(pending_out_len@ =~= Seq::new(8, |i: int| None::<usize>));
        SharedState {
            device,
            out_info,
            in_info,
            buffers,
            pending_out_len,
            control_out_buffer,
            pending_control_out: None,
            control: ControlState::new(),
            control_max_packet_size: 64,
        }
    }

    /// Takes over the endpoints that the driver handed out, and forgets everything else.
    pub fn store_allocations(&mut self, driver: &Driver, control_max_packet_size: u16)
        requires
            old(self).wf(),
        ensures
            final(self).wf(),
            final(self).out_info@ == driver.out_info@,
            final(self).in_info@ == driver.in_info@,
            final(self).buffers == old(self).buffers,
            final(self).control_max_packet_size == control_max_packet_size,
            final(self).pending_out_len@ == Seq::new(8, |i: int| None::<usize>),
            final(self).pending_control_out is None,
            final(self).control.phase is Idle,
            final(self).control_out_buffer@ == old(self).control_out_buffer@,
            final(self).device.resources@ == Transfers::idle(),
            final(self).device.runtime == old(self).device.runtime,
            final(self).device.layout == old(self).device.layout,
            final(self).device.controller == old(self).device.controller,
    {
        self.device.resources = UsbResources::new();
        self.out_info = driver.out_info;
        self.in_info = driver.in_info;
        self.pending_out_len = [None;MAX_ENDPOINTS];
        assert(self.pending_out_len@ =~= Seq::new(8, |i: int| None::<usize>));
        self.control_max_packet_size = control_max_packet_size;
        self.clear_control_state();
    }

    pub fn clear_control_state(&mut self)
        requires
            old(self).wf(),
        ensures
            final(self).wf(),
            final(self).same_frame(old(self)),
            final(self).pending_out_len@ == old(self).pending_out_len@,
            final(self).control_out_buffer@ == old(self).control_out_buffer@,
            final(self).device == old(self).device,
            final(self).pending_control_out is None,
            final(self).control.phase is Idle,
    {
        self.pending_control_out = None;
        self.control.clear();
    }

    /// Takes a setup packet, if one is there.
    pub fn control_take_setup_packet(&mut self, capture: SetupCapture) -> (r: (
        Result<Option<[u8; 8]>, UsbError>,
        Vec<UsbOp>,
    ))
        requires
            old(self).wf(),
        ensures
            final(self).wf(),
            final(self).same_frame(old(self)),
            final(self).same_kept(old(self)),
            capture.overtakes(&old(self).device, &final(self).device, r.1@),
            match (capture.failure(), old(self).control.captured(capture)) {
                (Some(e), _) => r.0 == Err::<Option<[u8; 8]>, UsbError>(e)
                    && final(self).control.phase == old(self).control.phase,
                (None, ControlPhase::SetupPending(packet)) => {
                    &&& r.0 == Ok::<Option<[u8; 8]>, UsbError>(Some(packet))
                    &&& final(self).control.phase is Idle
                },
                (None, phase) => {
                    &&& r.0 == Ok::<Option<[u8; 8]>, UsbError>(None)
                    &&& final(self).control.phase == phase
                },
            },
    {
        let (pending, ops) = self.control.capture_setup_packet(&mut self.device, capture);
        match pending {
            Ok(true) => {
                let packet = self.control.take_setup_packet();
                (Ok(packet), ops)
            },
            Ok(false) => (Ok(None), ops),
            Err(e) => (Err(e), ops),
        }
    }

    /// Starts device mode on a controller that was reset.
    pub fn start_device(&mut self, regs: InitRegisters) -> (r: (
        Vec<UsbOp>,
        Result<(), UsbError>,
    ))
        requires
            old(self).wf(),
        ensures
            final(self).wf(),
            final(self).same_frame(old(self)),
            final(self).pending_out_len@ == old(self).pending_out_len@,
            final(self).pending_control_out is None,
            final(self).control.phase is Idle,
            old(self).device.starts_device_mode(
                &final(self).device,
                regs,
                old(self).control_max_packet_size,
                r,
            ),
    {
        self.clear_control_state();
        self.device.start_device_mode_with(regs, self.control_max_packet_size)
    }

    /// Brings the endpoints into the state that follows a bus reset.
    pub fn reset_after_bus_reset(&mut self) -> (r: Result<Vec<UsbOp>, UsbError>)
        requires
            old(self).wf(),
        ensures
            final(self).wf(),
            final(self).same_frame(old(self)),
            final(self).pending_out_len@ == old(self).pending_out_len@,
            final(self).pending_control_out is None,
            final(self).control.phase is Idle,
            old(self).device.resets(&final(self).device, old(self).control_max_packet_size, r),
    {
        self.clear_control_state();
        self.device.bus_reset_with(self.control_max_packet_size)
    }

    /// Starts a data stage from the host.
    pub fn control_prime_out_data(&mut self, expected_len: usize, last: bool, seen: EndpointSeen) -> (r:
        Result<(usize, Vec<UsbOp>), UsbError>)
        requires
            old(self).wf(),
        ensures
            final(self).wf(),
            final(self).same_frame(old(self)),
            final(self).same_kept(old(self)),
            final(self).device.runtime == old(self).device.runtime,
            final(self).control.phase == (ControlPhase::DataOut { last }),
            ({
                let len = if expected_len < CONTROL_BUFFER_SIZE {
                    expected_len
                } else {
                    CONTROL_BUFFER_SIZE
                };
                match r {
                    Ok((n, ops)) => n == len && old(self).device.starts_ep0(
                        &final(self).device,
                        Direction::Out,
                        len,
                        seen,
                        Ok(ops),
                    ),
                    Err(e) => old(self).device.starts_ep0(
                        &final(self).device,
                        Direction::Out,
                        len,
                        seen,
                        Err(e),
                    ),
                }
            }),
    {
        self.control.prime_out_data(&mut self.device, expected_len, last, seen)
    }

    /// Polls for data from the host.
    ///
    /// A setup packet goes before data that is kept, and data that is kept before
    /// new data. `setup_pending` says whether a second look, made where nothing
    /// was kept, found a setup packet; see [`ControlState::take_out_data`] for
    /// `outcome` and `received`.
    pub fn control_take_out_data(
        &mut self,
        first_look_pending: bool,
        setup_pending: bool,
        outcome: Result<Option<TransferReport>, UsbError>,
        received: &[u8],
        dst: &mut Vec<u8>,
    ) -> (r: Result<ControlPoll<OutCompletion>, UsbError>)
        requires
            old(self).wf(),
            outcome matches Ok(Some(report)) ==> report.actual_bytes <= received@.len(),
        ensures
            final(self).wf(),
            final(self).same_frame(old(self)),
            final(self).device == old(self).device,
            final(self).pending_out_len@ == old(self).pending_out_len@,
            ({
                let s = *old(self);
                let room = old(dst)@.len();
                let inner = out_poll(
                    s.control.phase,
                    setup_pending,
                    outcome,
                    s.control_out_buffer@.len(),
                );
                if first_look_pending {
                    &&& r == Ok::<ControlPoll<OutCompletion>, UsbError>(ControlPoll::Interrupted)
                    &&& final(self).control_kept() is None
                    &&& final(self).control == s.control
                    &&& final(dst)@ == old(dst)@
                } else if let Some((done, bytes)) = s.control_kept() {
                    &&& final(self).control == s.control
                    &&& hands_over(done, bytes, old(dst)@, final(dst)@, r, final(self).control_kept())
                } else {
                    &&& takes_out(
                        s.control,
                        final(self).control,
                        setup_pending,
                        outcome,
                        received@,
                        s.control_out_buffer@,
                        final(self).control_out_buffer@,
                        inner,
                    )
                    &&& if let Ok(ControlPoll::Ready(done)) = inner {
                        hands_over(
                            done,
                            received@.take(done.bytes() as int),
                            old(dst)@,
                            final(dst)@,
                            r,
                            final(self).control_kept(),
                        )
                    } else {
                        &&& r == inner
                        &&& final(self).control_kept() is None
                        &&& final(dst)@ == old(dst)@
                    }
                }
            }),
    {
        if first_look_pending {
            self.pending_control_out = None;
            return Ok(ControlPoll::Interrupted);
        }
        if let Some((done, len)) = self.pending_control_out {
            if len > dst.len() {
                return Err(UsbError::BufferTooSmall { requested: len, buffer_len: dst.len() });
            }
            copy_front(dst, self.control_out_buffer.as_slice(), len);
            self.pending_control_out = None;
            return Ok(ControlPoll::Ready(done));
        }
        let inner = self.control.take_out_data(
            &self.device,
            setup_pending,
            outcome,
            received,
            &mut self.control_out_buffer,
        );
        proof {
            if let Ok(ControlPoll::Ready(done)) = inner {
                assert(self.control_out_buffer@.take(done.bytes() as int) =~= received@.take(
                    done.bytes() as int,
                ));
            }
        }
        match inner {
            Ok(ControlPoll::Ready(done)) => {
                let len: usize = done.len();
                if len > dst.len() {
                    self.pending_control_out = Some((done, len));
                    return Err(UsbError::BufferTooSmall { requested: len, buffer_len: dst.len() });
                }
                copy_front(dst, self.control_out_buffer.as_slice(), len);
                Ok(ControlPoll::Ready(done))
            },
            other => other,
        }
    }

    /// Starts a data stage to the host.
    pub fn control_prime_in_data(
        &mut self,
        data: &[u8],
        requested_len: usize,
        last: bool,
        seen: EndpointSeen,
    ) -> (r: Result<(usize, Vec<UsbOp>), UsbError>)
        requires
            old(self).wf(),
        ensures
            final(self).wf(),
            final(self).same_kept(old(self)),
            final(self).out_info@ == old(self).out_info@,
            final(self).in_info@ == old(self).in_info@,
            final(self).buffers == old(self).buffers,
            final(self).control_max_packet_size == old(self).control_max_packet_size,
            final(self).control.phase == (ControlPhase::DataIn { last }),
            sends_control(
                &old(self).device,
                &final(self).device,
                data@,
                requested_len,
                seen,
                r,
            ),
    {
        self.control.prime_in_data(&mut self.device, data, requested_len, last, seen)
    }

    /// Starts a status stage from the host.
    pub fn control_prime_out_status(&mut self, seen: EndpointSeen) -> (r: Result<
        Vec<UsbOp>,
        UsbError,
    >)
        requires
            old(self).wf(),
        ensures
            final(self).wf(),
            final(self).same_frame(old(self)),
            final(self).same_kept(old(self)),
            final(self).control.phase is StatusOut,
            final(self).device.runtime == old(self).device.runtime,
            old(self).device.starts_ep0(&final(self).device, Direction::Out, 0, seen, r),
    {
        self.control.prime_out_status(&mut self.device, seen)
    }

    /// Rejects the request.
    pub fn control_stall(&mut self) -> (r: Result<Vec<UsbOp>, UsbError>)
        requires
            old(self).wf(),
        ensures
            final(self).wf(),
            final(self).same_frame(old(self)),
            final(self).same_kept(old(self)),
            final(self).control.phase is Idle,
            final(self).device.resources@ == old(self).device.resources@,
            r is Ok,
            r->Ok_0@ == stall_ops(EndpointAddress::of(0, Direction::Out), true) + stall_ops(
                EndpointAddress::of(0, Direction::In),
                true,
            ),
            final(self).device.runtime == old(self).device.runtime.stalling(
                EndpointAddress::of(0, Direction::Out),
                true,
            ).stalling(EndpointAddress::of(0, Direction::In), true),
    {
        self.control.stall(&mut self.device)
    }

    /// Accepts the request.
    pub fn control_accept(&mut self, seen: EndpointSeen) -> (r: (
        Vec<UsbOp>,
        Result<(), UsbError>,
    ))
        requires
            old(self).wf(),
        ensures
            final(self).wf(),
            final(self).same_frame(old(self)),
            final(self).same_kept(old(self)),
            final(self).control.phase is StatusIn,
            accepts(&old(self).device, &final(self).device, None, seen, r),
    {
        self.control.accept(&mut self.device, seen)
    }

    /// Accepts a new device address.
    pub fn control_accept_set_address(&mut self, addr: u8, seen: EndpointSeen) -> (r: (
        Vec<UsbOp>,
        Result<(), UsbError>,
    ))
        requires
            old(self).wf(),
            addr < 128,
        ensures
            final(self).wf(),
            final(self).same_frame(old(self)),
            final(self).same_kept(old(self)),
            final(self).control.phase is StatusIn,
            accepts(&old(self).device, &final(self).device, Some(addr), seen, r),
    {
        self.control.accept_set_address(&mut self.device, addr, seen)
    }

    /// Enables or disables an endpoint that the driver handed out, see [`enable_endpoint`].
    pub fn endpoint_set_enabled(
        &mut self,
        addr: EndpointAddress,
        enabled: bool,
        seen: EndpointSeen,
    ) -> (r: (Vec<UsbOp>, Result<(), UsbError>))
        requires
            old(self).wf(),
            addr.is_real(),
        ensures
            final(self).wf(),
            final(self).same_frame(old(self)),
            final(self).same_kept(old(self)),
            final(self).control.phase == old(self).control.phase,
            enables_endpoint(
                &old(self).device,
                &final(self).device,
                old(self).buffers,
                old(self).infos(addr.way())[addr.number()],
                addr,
                enabled,
                seen,
                r,
            ),
    {
        let info = match addr.direction() {
            Direction::Out => self.out_info[addr.index()],
            Direction::In => self.in_info[addr.index()],
        };
        enable_endpoint(&mut self.device, self.buffers, info, addr, enabled, seen)
    }

    /// Stalls an endpoint or ends its stall.
    pub fn endpoint_set_stalled(&mut self, addr: EndpointAddress, stalled: bool) -> (r: Result<
        Vec<UsbOp>,
        UsbError,
    >)
        requires
            old(self).wf(),
        ensures
            final(self).wf(),
            final(self).same_frame(old(self)),
            final(self).same_kept(old(self)),
            final(self).control == old(self).control,
            final(self).device.resources@ == old(self).device.resources@,
            if !addr.is_real() {
                &&& r == Err::<Vec<UsbOp>, UsbError>(
                    UsbError::InvalidEndpoint(addr.number() as usize),
                )
                &&& final(self).device.runtime == old(self).device.runtime
            } else {
                &&& r is Ok
                &&& r->Ok_0@ == stall_ops(addr, stalled)
                &&& final(self).device.runtime == old(self).device.runtime.stalling(addr, stalled)
            },
    {
        self.device.set_stalled(addr, stalled)
    }

    /// Starts receiving on an OUT endpoint again.
    pub open spec fn reprimes(
        &self,
        after: &Self,
        addr: EndpointAddress,
        max_packet: usize,
        seen: EndpointSeen,
        ops: Seq<UsbOp>,
        failed: Option<UsbError>,
    ) -> bool {
        let buffer = self.buffers.at(addr);
        &&& failed == transfer_error(
            addr,
            Direction::Out,
            self.buffers.size as usize,
            max_packet,
            seen,
            buffer,
        )
        &&& after.device.runtime == self.device.runtime
        &&& if failed is None {
            &&& ops == seq![UsbOp::Invalidate { addr: buffer, len: self.buffers.size as usize }]
                + prime_ops(self.device.layout, addr)
            &&& after.device.resources@ == self.device.resources@.primed(
                self.device.layout,
                addr,
                buffer,
                max_packet,
            )
        } else {
            ops == Seq::<UsbOp>::empty() && after.device.resources@ == self.device.resources@
        }
    }

    fn reprime(&mut self, addr: EndpointAddress, max_packet: usize, seen: EndpointSeen) -> (r: (
        Vec<UsbOp>,
        Option<UsbError>,
    ))
        requires
            old(self).wf(),
            addr.is_real(),
        ensures
            final(self).wf(),
            final(self).same_frame(old(self)),
            final(self).same_kept(old(self)),
            final(self).control == old(self).control,
            old(self).reprimes(final(self), addr, max_packet, seen, r.0@, r.1),
    {
        let buffer: u32 = self.buffers.address(addr);
        match self.device.prime_out(
            addr,
            buffer,
            self.buffers.size as usize,
            max_packet,
            seen,
        ) {
            Ok(ops) => (ops, None),
            Err(e) => {
                let ops: Vec<UsbOp> = Vec::new();
                assert(ops@ =~= Seq::<UsbOp>::empty());
                (ops, Some(e))
            },
        }
    }

    /// Takes received data of an OUT endpoint.
    ///
    /// Data that was kept goes first. Data that is longer than `available_len` is
    /// kept, and the endpoint receives again only once it was taken. `received`
    /// is what the endpoint's buffer holds; where `outcome` reports a transfer,
    /// the buffer has been made visible.
    pub fn endpoint_take_out_data(
        &mut self,
        addr: EndpointAddress,
        outcome: Result<Option<TransferReport>, UsbError>,
        received: &[u8],
        scratch: &mut Vec<u8>,
        max_packet: usize,
        available_len: usize,
        seen: EndpointSeen,
    ) -> (r: (Result<Option<usize>, EndpointError>, Vec<UsbOp>))
        requires
            old(self).wf(),
            addr.is_real(),
            received@.len() == old(self).buffers.size,
            old(scratch)@.len() == old(self).buffers.size,
            outcome matches Ok(Some(report)) ==> report.actual_bytes <= old(self).buffers.size,
        ensures
            final(self).wf(),
            final(self).same_frame(old(self)),
            final(self).control == old(self).control,
            final(self).pending_control_out == old(self).pending_control_out,
            final(self).control_out_buffer@ == old(self).control_out_buffer@,
            ({
                let kept = old(self).pending_out_len@[addr.number()];
                let new_len = match outcome {
                    Ok(Some(report)) => Some(report.actual_bytes),
                    _ => None::<usize>,
                };
                match (kept, outcome) {
                    (None, Err(e)) => {
                        &&& r.0 == Err::<Option<usize>, EndpointError>(endpoint_error(e))
                        &&& old(self).takes_nothing(final(self), old(scratch)@, final(scratch)@, r.1@)
                        &&& final(self).pending_out_len@ == old(self).pending_out_len@
                    },
                    (None, Ok(None)) => {
                        &&& r.0 == Ok::<Option<usize>, EndpointError>(None)
                        &&& old(self).takes_nothing(final(self), old(scratch)@, final(scratch)@, r.1@)
                        &&& final(self).pending_out_len@ == old(self).pending_out_len@
                    },
                    _ => {
                        let len = if kept is Some {
                            kept->0
                        } else {
                            new_len->0
                        };
                        if len > available_len {
                            &&& r.0 == Err::<Option<usize>, EndpointError>(
                                EndpointError::BufferOverflow,
                            )
                            &&& old(self).takes_nothing(
                                final(self),
                                old(scratch)@,
                                final(scratch)@,
                                r.1@,
                            )
                            &&& final(self).pending_out_len@ == old(self).pending_out_len@.update(
                                addr.number(),
                                Some(len),
                            )
                        } else {
                            let failed = transfer_error(
                                addr,
                                Direction::Out,
                                old(self).buffers.size as usize,
                                max_packet,
                                seen,
                                old(self).buffers.at(addr),
                            );
                            &&& final(scratch)@ == received@.take(len as int) + old(scratch)@.skip(
                                len as int,
                            )
                            &&& final(self).pending_out_len@ == old(self).pending_out_len@.update(
                                addr.number(),
                                None,
                            )
                            &&& old(self).reprimes(
                                final(self),
                                addr,
                                max_packet,
                                seen,
                                r.1@,
                                failed,
                            )
                            &&& r.0 == match failed {
                                Some(e) => Err::<Option<usize>, EndpointError>(endpoint_error(e)),
                                None => Ok(Some(len)),
                            }
                        }
                    },
                }
            }),
    {
        let index: usize = addr.index();
        let kept = self.pending_out_len[index];
        let none: Vec<UsbOp> = Vec::new();
        assert(none@ =~= Seq::<UsbOp>::empty());
        let len: usize = match kept {
            Some(len) => {
                if len > available_len {
                    assert(self.pending_out_len@ =~= old(self).pending_out_len@.update(
                        addr.number(),
                        Some(len),
                    ));
                    return (Err(EndpointError::BufferOverflow), none);
                }
                len
            },
            None => match outcome {
                Ok(Some(report)) => {
                    if report.actual_bytes > available_len {
                        self.pending_out_len[index] = Some(report.actual_bytes);
                        return (Err(EndpointError::BufferOverflow), none);
                    }
                    report.actual_bytes
                },
                Ok(None) => return (Ok(None), none),
                Err(e) => return (Err(map_usb_error(e)), none),
            },
        };
        copy_front(scratch, received, len);
        self.pending_out_len[index] = None;
        assert(self.pending_out_len@ =~= old(self).pending_out_len@.update(addr.number(), None));
        let (ops, failed) = self.reprime(addr, max_packet, seen);
        match failed {
            Some(e) => (Err(map_usb_error(e)), ops),
            None => (Ok(Some(len)), ops),
        }
    }

    /// Nothing is copied and nothing started.
    pub open spec fn takes_nothing(
        &self,
        after: &Self,
        scratch: Seq<u8>,
        scratch_after: Seq<u8>,
        ops: Seq<UsbOp>,
    ) -> bool {
        ops == Seq::<UsbOp>::empty() && scratch_after == scratch && after.device == self.device
    }

    /// Starts sending `len` bytes that are put into the buffer of an IN endpoint.
    pub fn endpoint_write_in(&mut self, addr: EndpointAddress, len: usize, seen: EndpointSeen) -> (r:
        Result<Vec<UsbOp>, EndpointError>)
        requires
            old(self).wf(),
            addr.is_real(),
        ensures
            final(self).wf(),
            final(self).same_frame(old(self)),
            final(self).same_kept(old(self)),
            final(self).control == old(self).control,
            ({
                let buffer = old(self).buffers.at(addr);
                let size = old(self).buffers.size as usize;
                let error = transfer_error(addr, Direction::In, size, len, seen, buffer);
                if len > size {
                    &&& r == Err::<Vec<UsbOp>, EndpointError>(EndpointError::BufferOverflow)
                    &&& final(self).device.same(&old(self).device)
                } else if error is Some {
                    &&& r == Err::<Vec<UsbOp>, EndpointError>(endpoint_error(error->0))
                    &&& final(self).device.same(&old(self).device)
                } else {
                    &&& r is Ok
                    &&& r->Ok_0@ == seq![UsbOp::Clean { addr: buffer, len: size }] + prime_ops(
                        old(self).device.layout,
                        addr,
                    )
                    &&& final(self).device.resources@ == old(self).device.resources@.primed(
                        old(self).device.layout,
                        addr,
                        buffer,
                        len,
                    )
                    &&& final(self).device.runtime == old(self).device.runtime
                }
            }),
    {
        let size: usize = self.buffers.size as usize;
        if len > size {
            return Err(EndpointError::BufferOverflow);
        }
        let buffer: u32 = self.buffers.address(addr);
        match self.device.prime_in(addr, buffer, size, len, seen) {
            Ok(ops) => Ok(ops),
            Err(e) => Err(map_usb_error(e)),
        }
    }

    /// What the end of a poll for the end of a transfer to the host means.
    pub fn endpoint_take_in_complete(outcome: Result<Option<TransferReport>, UsbError>) -> (r: Result<
        Option<()>,
        EndpointError,
    >)
        ensures
            r == match outcome {
                Ok(Some(_)) => Ok::<Option<()>, EndpointError>(Some(())),
                Ok(None) => Ok(None),
                Err(e) => Err(endpoint_error(e)),
            },
    {
        match outcome {
            Ok(Some(_)) => Ok(Some(())),
            Ok(None) => Ok(None),
            Err(e) => Err(map_usb_error(e)),
        }
    }
}

/// Control-pipe handle used by the USB stack.
#[derive(Debug, Clone, Copy, PartialEq, Eq, Structural)]
pub struct Control {
    pub id: UsbId,
    pub max_packet_size: usize,
}

/// How a control pipe goes on after a poll for a setup packet.
#[derive(Debug, Clone, Copy, PartialEq, Eq)]
pub enum SetupPoll {
    Ready([u8; 8]),
    /// Keep waiting. The reset count that is waited from may have changed.
    Pending { reset_baseline: u32 },
    /// The driver has to be failed; keep waiting.
    Fail { reset_baseline: u32 },
}

impl Control {
    pub fn max_packet_size(&self) -> (r: usize)
        ensures
            r == self.max_packet_size,
    {
        self.max_packet_size
    }

    /// Whether a wait for a setup packet has to start over: after a failure or a bus
    /// reset the control state is cleared and the reset count taken anew.
    pub fn setup_restarts(&self, state: &mut SharedState, reset_baseline: u32) -> (r: Option<u32>)
        requires
            old(state).wf(),
        ensures
            final(state).wf(),
            final(state).same_frame(old(state)),
            final(state).device == old(state).device,
            final(state).pending_out_len@ == old(state).pending_out_len@,
            ({
                let rt = old(state).device.runtime;
                if rt.failed || rt.reset_count != reset_baseline {
                    &&& r == Some(rt.reset_count)
                    &&& final(state).pending_control_out is None
                    &&& final(state).control.phase is Idle
                } else {
                    &&& r is None
                    &&& final(state).same_kept(old(state))
                    &&& final(state).control == old(state).control
                }
            }),
    {
        let rt = state.device.runtime;
        if rt.has_failed() || rt.reset_count() != reset_baseline {
            state.clear_control_state();
            return Some(rt.reset_count());
        }
        None
    }

    /// Ends a poll for a setup packet that did not start over.
    pub fn finish_setup(
        &self,
        state: &mut SharedState,
        outcome: Result<Option<[u8; 8]>, UsbError>,
        reset_baseline: u32,
    ) -> (r: SetupPoll)
        requires
            old(state).wf(),
        ensures
            final(state).wf(),
            final(state).same_frame(old(state)),
            final(state).device == old(state).device,
            final(state).pending_out_len@ == old(state).pending_out_len@,
            match outcome {
                Ok(Some(packet)) => {
                    &&& r == SetupPoll::Ready(packet)
                    &&& final(state).control == old(state).control
                    &&& final(state).same_kept(old(state))
                },
                Ok(None) => {
                    &&& r == (SetupPoll::Pending {
                        reset_baseline: old(state).device.runtime.reset_count,
                    })
                    &&& if old(state).device.runtime.reset_count != reset_baseline {
                        &&& final(state).control.phase is Idle
                        &&& final(state).pending_control_out is None
                    } else {
                        &&& final(state).control == old(state).control
                        &&& final(state).same_kept(old(state))
                    }
                },
                Err(_) => {
                    &&& r == (SetupPoll::Fail { reset_baseline })
                    &&& final(state).control.phase is Idle
                    &&& final(state).pending_control_out is None
                },
            },
    {
        match outcome {
            Ok(Some(packet)) => SetupPoll::Ready(packet),
            Ok(None) => {
                let count: u32 = state.device.runtime.reset_count();
                if count != reset_baseline {
                    state.clear_control_state();
                }
                SetupPoll::Pending { reset_baseline: count }
            },
            Err(_) => {
                state.clear_control_state();
                SetupPoll::Fail { reset_baseline }
            },
        }
    }

    /// The length of the packet of a data stage to the host, of `len` bytes of data.
    pub fn packet_len(&self, len: usize) -> (r: usize)
        ensures
            r == (if len < self.max_packet_size {
                len
            } else {
                self.max_packet_size
            }),
    {
        if len < self.max_packet_size {
            len
        } else {
            self.max_packet_size
        }
    }

    /// Whether a data stage to the host that is complete is followed by a status stage.
    pub fn status_follows(&self, done: InCompletion) -> (r: bool)
        ensures
            r == (done is NeedsStatusOut),
    {
        match done {
            InCompletion::DataComplete | InCompletion::StatusComplete => false,
            InCompletion::NeedsStatusOut => true,
        }
    }
}

/// The bus side of the driver.
#[derive(Debug, Clone, Copy, PartialEq, Eq, Structural)]
pub struct UsbBus {
    pub id: UsbId,
}

impl UsbBus {
    /// Starts device mode on a controller that was reset. The driver fails where
    /// that does not work.
    pub fn enable(&mut self, state: &mut SharedState, regs: InitRegisters) -> (r: (
        Vec<UsbOp>,
        Vec<Wake>,
    ))
        requires
            old(state).wf(),
        ensures
            *final(self) == *old(self),
            final(state).wf(),
            final(state).same_frame(old(state)),
            final(state).pending_out_len@ == old(state).pending_out_len@,
            final(state).pending_control_out is None,
            final(state).control.phase is Idle,
            ({
                let before = old(state).device;
                let after = final(state).device;
                let entered = before.runtime.device_mode(regs.otgsc_running);
                if bits::bit(regs.usbcmd.raw, 1) {
                    &&& r.0@ == Seq::<UsbOp>::empty()
                    &&& r.1@ == failure_wakes()
                    &&& after.resources@ == before.resources@
                    &&& after.runtime == failed_runtime(before.runtime)
                } else if before.layout.queue_heads % 2048 != 0 {
                    &&& r.0@ == device_mode_ops(regs)
                    &&& r.1@ == failure_wakes()
                    &&& after.resources@ == Transfers::idle()
                    &&& after.runtime == failed_runtime(entered)
                } else {
                    &&& r.0@ == device_mode_ops(regs) + bus_reset_ops(before.layout)
                    &&& r.1@ == Seq::<Wake>::empty()
                    &&& after.resources@ == Transfers::after_bus_reset(
                        old(state).control_max_packet_size,
                    )
                    &&& after.runtime == (ControllerRuntime {
                        failed: false,
                        ..entered.ep0_ready()
                    })
                }
            }),
    {
        let (ops, result) = state.start_device(regs);
        match result {
            Ok(()) => {
                clear_driver_failure(&mut state.device.runtime);
                let wakes: Vec<Wake> = Vec::new();
                assert(wakes@ =~= Seq::<Wake>::empty());
                (ops, wakes)
            },
            Err(_) => {
                let wakes = fail_driver(&mut state.device.runtime);
                (ops, wakes)
            },
        }
    }

    /// Stops the controller.
    pub fn disable(&mut self, state: &mut SharedState, otgsc: OtgSc) -> (ops: Vec<UsbOp>)
        requires
            old(state).wf(),
        ensures
            *final(self) == *old(self),
            final(state).wf(),
            final(state).same_frame(old(state)),
            final(state).pending_out_len@ == old(state).pending_out_len@,
            final(state).pending_control_out is None,
            final(state).control.phase is Idle,
            ops@ == disable_ops(otgsc),
            final(state).device.resources@ == Transfers::idle(),
            final(state).device.runtime == (ControllerRuntime {
                failed: false,
                suspended: false,
                power_present: false,
                ..old(state).device.runtime.without_endpoints()
            }),
    {
        let ops = state.device.disable(otgsc);
        state.clear_control_state();
        clear_driver_failure(&mut state.device.runtime);
        ops
    }

    /// Polls for a bus event. A failure is reported once as lost power. After a
    /// reset the endpoints are brought into the state that follows it.
    pub fn poll(&mut self, state: &mut SharedState) -> (r: (
        Option<Event>,
        Vec<UsbOp>,
        Vec<Wake>,
    ))
        requires
            old(state).wf(),
        ensures
            *final(self) == *old(self),
            final(state).wf(),
            final(state).same_frame(old(state)),
            ({
                let before = old(state).device;
                let after = final(state).device;
                let taken = first_event(before.runtime.event_flags);
                if before.runtime.failed {
                    &&& r.0 == Some(Event::PowerRemoved)
                    &&& r.1@ == Seq::<UsbOp>::empty()
                    &&& r.2@ == seq![Wake::Control, Wake::AllEndpoints]
                    &&& after.resources@ == before.resources@
                    &&& after.runtime == (ControllerRuntime { failed: false, ..before.runtime })
                    &&& final(state).same_kept(old(state))
                    &&& final(state).control == old(state).control
                } else if taken is None {
                    &&& r.0 is None
                    &&& r.1@ == Seq::<UsbOp>::empty()
                    &&& r.2@ == Seq::<Wake>::empty()
                    &&& after.same(&before)
                    &&& final(state).same_kept(old(state))
                    &&& final(state).control == old(state).control
                } else {
                    let rt = ControllerRuntime {
                        event_flags: before.runtime.event_flags & !taken->0.flag(),
                        ..before.runtime
                    };
                    &&& r.0 == taken
                    &&& if taken->0 is Reset {
                        &&& final(state).control.phase is Idle
                        &&& final(state).pending_control_out is None
                        &&& final(state).pending_out_len@ == old(state).pending_out_len@
                        &&& if before.layout.queue_heads % 2048 != 0 {
                            &&& r.1@ == Seq::<UsbOp>::empty()
                            &&& r.2@ == failure_wakes()
                            &&& after.resources@ == Transfers::idle()
                            &&& after.runtime == failed_runtime(rt)
                        } else {
                            &&& r.1@ == bus_reset_ops(before.layout)
                            &&& r.2@ == Seq::<Wake>::empty()
                            &&& after.resources@ == Transfers::after_bus_reset(
                                old(state).control_max_packet_size,
                            )
                            &&& after.runtime == rt.ep0_ready()
                        }
                    } else {
                        &&& r.1@ == Seq::<UsbOp>::empty()
                        &&& r.2@ == Seq::<Wake>::empty()
                        &&& after.resources@ == before.resources@
                        &&& after.runtime == rt
                        &&& final(state).same_kept(old(state))
                        &&& final(state).control == old(state).control
                    }
                }
            }),
    {
        let none: Vec<UsbOp> = Vec::new();
        assert(none@ =~= Seq::<UsbOp>::empty());
        let quiet: Vec<Wake> = Vec::new();
        assert(quiet@ =~= Seq::<Wake>::empty());
        let event = match poll_bus(&mut state.device.runtime) {
            BusPoll::Failed => {
                let wakes: Vec<Wake> = vec![Wake::Control, Wake::AllEndpoints];
                assert(wakes@ =~= seq![Wake::Control, Wake::AllEndpoints]);
                return (Some(Event::PowerRemoved), none, wakes);
            },
            BusPoll::Pending => return (None, none, quiet),
            BusPoll::Ready(event) => event,
        };
        match event {
            Event::Reset => match state.reset_after_bus_reset() {
                Ok(ops) => (Some(event), ops, quiet),
                Err(_) => {
                    let wakes = fail_driver(&mut state.device.runtime);
                    (Some(event), none, wakes)
                },
            },
            _ => (Some(event), none, quiet),
        }
    }

    /// Ends a change of an endpoint: the driver fails where it did not work, and those
    /// who wait for the control pipe or for the endpoint are woken.
    pub fn finish_endpoint_change(
        &mut self,
        state: &mut SharedState,
        addr: EndpointAddress,
        result: Result<(), UsbError>,
    ) -> (wakes: Vec<Wake>)
        requires
            old(state).wf(),
        ensures
            *final(self) == *old(self),
            final(state).wf(),
            final(state).same_frame(old(state)),
            final(state).same_kept(old(state)),
            final(state).control == old(state).control,
            final(state).device.resources@ == old(state).device.resources@,
            final(state).device.runtime == (if result is Err {
                failed_runtime(old(state).device.runtime)
            } else {
                old(state).device.runtime
            }),
            wakes@ == (if result is Err {
                failure_wakes()
            } else {
                Seq::<Wake>::empty()
            }) + seq![Wake::Control, Wake::Endpoint(addr)],
    {
        let mut wakes: Vec<Wake> = Vec::new();
        if result.is_err() {
            wakes = fail_driver(&mut state.device.runtime);
        }
        let ghost failed = wakes@;
        assert(failed =~= (if result is Err {
            failure_wakes()
        } else {
            Seq::<Wake>::empty()
        }));
        wakes.push(Wake::Control);
        wakes.push(Wake::Endpoint(addr));
        assert(wakes@ =~= failed + seq![Wake::Control, Wake::Endpoint(addr)]);
        wakes
    }

    pub fn endpoint_is_stalled(&self, state: &SharedState, addr: EndpointAddress) -> (r: bool)
        requires
            addr.number() < 16,
        ensures
            r == state.device.runtime.stalls(addr),
    {
        state.device.runtime.is_stalled(addr)
    }
}

/// An OUT endpoint that the driver handed out.
#[derive(Debug, Clone, Copy, PartialEq, Eq, Structural)]
pub struct EndpointOut {
    pub id: UsbId,
    pub info: EndpointInfo,
}

impl EndpointOut {
    pub fn info(&self) -> (r: &EndpointInfo)
        ensures
            *r == self.info,
    {
        &self.info
    }

    /// Ends a poll for received data, see [`SharedState::endpoint_take_out_data`].
    /// Nothing is lost where the data does not fit `buf`.
    pub fn finish_read(
        &self,
        state: &mut SharedState,
        outcome: Result<Option<TransferReport>, UsbError>,
        received: &[u8],
        buf: &mut Vec<u8>,
        seen: EndpointSeen,
    ) -> (r: (Option<Result<usize, EndpointError>>, Vec<UsbOp>))
        requires
            old(state).wf(),
            self.info.addr.is_real(),
            received@.len() == old(state).buffers.size,
            outcome matches Ok(Some(report)) ==> report.actual_bytes <= old(state).buffers.size,
        ensures
            final(state).wf(),
            final(state).same_frame(old(state)),
            final(state).control == old(state).control,
            final(state).pending_control_out == old(state).pending_control_out,
            final(state).control_out_buffer@ == old(state).control_out_buffer@,
            ({
                let addr = self.info.addr;
                let max_packet = self.info.max_packet_size as usize;
                let kept = old(state).pending_out_len@[addr.number()];
                let waiting = match (kept, outcome) {
                    (Some(len), _) => Ok(Some(len)),
                    (None, Ok(Some(report))) => Ok(Some(report.actual_bytes)),
                    (None, Ok(None)) => Ok(None),
                    (None, Err(e)) => Err(e),
                };
                let failed = transfer_error(
                    addr,
                    Direction::Out,
                    old(state).buffers.size as usize,
                    max_packet,
                    seen,
                    old(state).buffers.at(addr),
                );
                match waiting {
                    Err(e) => {
                        &&& r.0 == Some(Err::<usize, EndpointError>(endpoint_error(e)))
                        &&& r.1@ == Seq::<UsbOp>::empty()
                        &&& final(buf)@ == old(buf)@
                        &&& final(state).device == old(state).device
                        &&& final(state).pending_out_len@ == old(state).pending_out_len@
                    },
                    Ok(None) => {
                        &&& r.0 is None
                        &&& r.1@ == Seq::<UsbOp>::empty()
                        &&& final(buf)@ == old(buf)@
                        &&& final(state).device == old(state).device
                        &&& final(state).pending_out_len@ == old(state).pending_out_len@
                    },
                    Ok(Some(len)) => if len > old(buf)@.len() {
                        &&& r.0 == Some(Err::<usize, EndpointError>(EndpointError::BufferOverflow))
                        &&& r.1@ == Seq::<UsbOp>::empty()
                        &&& final(buf)@ == old(buf)@
                        &&& final(state).device == old(state).device
                        &&& final(state).pending_out_len@ == old(state).pending_out_len@.update(
                            addr.number(),
                            Some(len),
                        )
                    } else {
                        &&& final(state).pending_out_len@ == old(state).pending_out_len@.update(
                            addr.number(),
                            None,
                        )
                        &&& old(state).reprimes(
                            final(state),
                            addr,
                            max_packet,
                            seen,
                            r.1@,
                            failed,
                        )
                        &&& match failed {
                            Some(e) => {
                                &&& r.0 == Some(Err::<usize, EndpointError>(endpoint_error(e)))
                                &&& final(buf)@ == old(buf)@
                            },
                            None => {
                                &&& r.0 == Some(Ok::<usize, EndpointError>(len))
                                &&& final(buf)@ == received@.take(len as int) + old(buf)@.skip(
                                    len as int,
                                )
                            },
                        }
                    },
                }
            }),
    {
        let size: usize = state.buffers.size as usize;
        let mut scratch: Vec<u8> = vec![0;size];
        let (taken, ops) = state.endpoint_take_out_data(
            self.info.addr,
            outcome,
            received,
            &mut scratch,
            self.info.max_packet_size as usize,
            buf.len(),
            seen,
        );
        match taken {
            Ok(Some(len)) => {
                copy_front(buf, scratch.as_slice(), len);
                assert(scratch@.take(len as int) =~= received@.take(len as int));
                (Some(Ok(len)), ops)
            },
            Ok(None) => (None, ops),
            Err(e) => (Some(Err(e)), ops),
        }
    }
}

/// How a write goes on.
#[derive(Debug, Clone, Copy, PartialEq, Eq, Structural)]
pub enum WriteStep {
    /// The endpoint is disabled, or was reset.
    Disabled,
    /// Nothing was started yet: [`SharedState::endpoint_write_in`].
    Start,
    /// Poll for the end: [`SharedState::endpoint_take_in_complete`].
    Await,
}

/// An IN endpoint that the driver handed out.
#[derive(Debug, Clone, Copy, PartialEq, Eq, Structural)]
pub struct EndpointIn {
    pub id: UsbId,
    pub info: EndpointInfo,
}

impl EndpointIn {
    pub fn info(&self) -> (r: &EndpointInfo)
        ensures
            *r == self.info,
    {
        &self.info
    }

    /// How a write that began at reset count `reset_baseline` goes on.
    pub fn write_step(&self, state: &SharedState, reset_baseline: u32) -> (r: WriteStep)
        requires
            self.info.addr.is_real(),
        ensures
            r == (if !may_transfer(state.device.runtime, self.info.addr, reset_baseline) {
                WriteStep::Disabled
            } else if state.device.resources@.requested[self.info.addr.slot()] == 0 {
                WriteStep::Start
            } else {
                WriteStep::Await
            }),
    {
        if check_endpoint(&state.device.runtime, self.info.addr, reset_baseline).is_err() {
            return WriteStep::Disabled;
        }
        if state.device.resources.requested(self.info.addr) == 0 {
            WriteStep::Start
        } else {
            WriteStep::Await
        }
    }
}

/// A status stage that completes ends the transfer, and so does every stage but the last data
/// from the host. Only the status stages report that the transfer is complete.
pub proof fn status_stage_ends_the_transfer(phase: ControlPhase, len: usize)
    ensures
        after_out(phase) is Idle || after_out(phase) is AwaitingAccept,
        after_out(ControlPhase::StatusOut) is Idle,
        out_completion(phase, len) is StatusComplete <==> phase is StatusOut,
        in_completion(phase) is StatusComplete <==> phase is StatusIn,
        after_out(phase) is AwaitingAccept <==> out_completion(phase, len) is AwaitingAccept,
        !(phase is StatusOut) ==> out_completion(phase, len).bytes() == len,
{
}

/// A setup packet cannot be taken exactly where a direction of the control endpoint was not
/// flushed, and the failure names such a direction.
pub proof fn unflushed_direction_is_named(capture: SetupCapture)
    ensures
        capture.failure() is Some <==> capture.packet is Some && !(capture.out_flushed
            && capture.in_flushed),
        capture.failure() matches Some(e) ==> (e matches UsbError::EndpointFlushTimedOut(addr)
            && addr.raw as int % 128 == 0 && (if addr.raw >= 128 {
            !capture.in_flushed
        } else {
            !capture.out_flushed
        })),
{
}

/// A pending setup packet interrupts every data stage. Without one, data that came is handed
/// over with its length wherever it fits, and refused with both lengths where it does not.
pub proof fn data_stage_is_interrupted_or_handed_over(
    phase: ControlPhase,
    outcome: Result<Option<TransferReport>, UsbError>,
    capacity: nat,
)
    ensures
        out_poll(phase, true, outcome, capacity) == Ok::<ControlPoll<OutCompletion>, UsbError>(
            ControlPoll::Interrupted,
        ),
        outcome matches Ok(Some(report)) ==> {
            let r = out_poll(phase, false, outcome, capacity);
            &&& r is Ok <==> report.actual_bytes <= capacity
            &&& r is Ok ==> r->Ok_0 is Ready
            &&& r matches Err(e) ==> (e matches UsbError::BufferTooSmall { requested, buffer_len }
                && requested == report.actual_bytes && buffer_len == capacity as usize)
        },
        outcome == Ok::<Option<TransferReport>, UsbError>(None) ==> out_poll(
            phase,
            false,
            outcome,
            capacity,
        ) == Ok::<ControlPoll<OutCompletion>, UsbError>(ControlPoll::Pending),
{
}

/// A failed driver says so, has no event pending and no endpoint that works, and every kind of
/// task is woken.
pub proof fn failed_driver_is_quiet(rt: ControllerRuntime, addr: EndpointAddress)
    requires
        addr.number() < 16,
    ensures
        failed_runtime(rt).failed,
        failed_runtime(rt).event_flags == 0,
        !failed_runtime(rt).enables(addr),
        failure_wakes().contains(Wake::Bus),
        failure_wakes().contains(Wake::Control),
        failure_wakes().contains(Wake::AllEndpoints),
{
    crate::hal::usb::runtime::cleared_endpoints_are_idle(rt, addr);
    let wakes = failure_wakes();
    assert(wakes[0] is Bus && wakes[1] is Control && wakes[2] is AllEndpoints);
}

} // verus!
