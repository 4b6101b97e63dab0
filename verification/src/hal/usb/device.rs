//! Device-mode transfers of a USB controller.
//!
//! Functions decide what is written to the controller and keep the descriptors
//! in [`UsbResources`] up to date. The caller performs the accesses in order and
//! keeps the DMA memory equal to the resources.
use vstd::prelude::*;

use super::descriptor::{
    capabilities_of, token_active, token_failed, bytes_done, DmaLayout, EndpointQueueHead,
    EndpointQueueHeadList, TransferDescriptor, TransferReport, Transfers, UsbResources,
    QUEUE_HEAD_LIST_ALIGN, QUEUE_HEAD_LIST_SIZE, QUEUE_HEAD_SIZE, TRANSFER_DESCRIPTOR_SIZE,
};
use super::runtime::{self, ControllerRuntime, EVENT_RESET, EVENT_SUSPEND};
use super::{
    bitmap_half, bitmap_holds, bitmap_of, endpoint_bitmap_for, endpoint_bitmap_is_set,
    endpoint_type_bits, ep0_addr, power_detection_interrupts_enabled, power_present,
    power_present_from_otgsc, staged_device_address, type_code, Direction, EndpointAddress,
    EndpointType, InterruptResult, UsbError, UsbId, UsbInitError, CONTROLLER_RESET_TIMEOUT_ITERS,
    CONTROL_BUFFER_SIZE, ENDPOINT_FLUSH_TIMEOUT_ITERS, EPCTRL_RX_DATA_TOGGLE_RESET,
    EPCTRL_RX_ENABLE, EPCTRL_RX_STALL, EPCTRL_RX_TYPE_SHIFT, EPCTRL_TX_DATA_TOGGLE_RESET,
    EPCTRL_TX_ENABLE, EPCTRL_TX_STALL, EPCTRL_TX_TYPE_SHIFT, MAX_DTD_TRANSFER_BYTES, MAX_ENDPOINTS,
    SETUP_PACKET_SIZE,
};
use crate::bits;
use crate::cache::{self, AlignmentError};
use crate::pac::usb::{
    ControllerMode, DeviceAddress, EndpointBitmap, EndpointListAddress, EndpointSetupStatus, OtgSc,
    PortSc1, UsbCommand, UsbInterrupt, UsbMode, UsbStatus,
};
use crate::slcr::{self, AmbaClock, DualRefAndClockReset, SlcrOp};

verus! {

/// An update of the command register in place.
#[derive(Debug, Clone, Copy, PartialEq, Eq, Structural)]
pub enum CommandUpdate {
    StopAndReset,
    Run,
    Stop,
    SetupTripwire(bool),
    AddDtdTripwire(bool),
}

impl CommandUpdate {
    pub open spec fn applied(self, raw: u32) -> u32 {
        match self {
            CommandUpdate::StopAndReset => bits::set_bit(bits::set_bit(raw, 0, false), 1, true),
            CommandUpdate::Run => bits::set_bit(raw, 0, true),
            CommandUpdate::Stop => bits::set_bit(raw, 0, false),
            CommandUpdate::SetupTripwire(v) => bits::set_bit(raw, 13, v),
            CommandUpdate::AddDtdTripwire(v) => bits::set_bit(raw, 14, v),
        }
    }

    /// The command register after the update.
    pub fn apply(self, cmd: UsbCommand) -> (r: UsbCommand)
        ensures
            r.raw == self.applied(cmd.raw),
    {
        match self {
            CommandUpdate::StopAndReset => cmd.with_run_stop(false).with_controller_reset(true),
            CommandUpdate::Run => cmd.with_run_stop(true),
            CommandUpdate::Stop => cmd.with_run_stop(false),
            CommandUpdate::SetupTripwire(v) => cmd.with_setup_tripwire(v),
            CommandUpdate::AddDtdTripwire(v) => cmd.with_add_dtd_tripwire(v),
        }
    }
}

/// An update of an endpoint control register in place.
#[derive(Debug, Clone, Copy, PartialEq, Eq, Structural)]
pub enum EndptCtrlUpdate {
    Configure { way: Direction, ep_type: EndpointType, enable: bool },
    Stall { way: Direction, stalled: bool },
}

impl EndptCtrlUpdate {
    pub open spec fn applied(self, current: u32) -> u32 {
        match self {
            EndptCtrlUpdate::Configure { way: Direction::Out, ep_type, enable } => {
                let val = current & !(3u32 << EPCTRL_RX_TYPE_SHIFT);
                if enable {
                    val | (EPCTRL_RX_ENABLE | EPCTRL_RX_DATA_TOGGLE_RESET | (type_code(ep_type)
                        << EPCTRL_RX_TYPE_SHIFT))
                } else {
                    val & !EPCTRL_RX_ENABLE
                }
            },
            EndptCtrlUpdate::Configure { way: Direction::In, ep_type, enable } => {
                let val = current & !(3u32 << EPCTRL_TX_TYPE_SHIFT);
                if enable {
                    val | (EPCTRL_TX_ENABLE | EPCTRL_TX_DATA_TOGGLE_RESET | (type_code(ep_type)
                        << EPCTRL_TX_TYPE_SHIFT))
                } else {
                    val & !EPCTRL_TX_ENABLE
                }
            },
            EndptCtrlUpdate::Stall { way: Direction::Out, stalled } => if stalled {
                current | EPCTRL_RX_STALL
            } else {
                current & !EPCTRL_RX_STALL
            },
            EndptCtrlUpdate::Stall { way: Direction::In, stalled } => if stalled {
                current | EPCTRL_TX_STALL
            } else {
                current & !EPCTRL_TX_STALL
            },
        }
    }

    /// The endpoint control register after the update.
    pub fn apply(self, current: u32) -> (r: u32)
        ensures
            r == self.applied(current),
    {
        match self {
            EndptCtrlUpdate::Configure { way: Direction::Out, ep_type, enable } => {
                let typ: u32 = endpoint_type_bits(ep_type);
                let val: u32 = current & !(3u32 << EPCTRL_RX_TYPE_SHIFT);
                if enable {
                    val | (EPCTRL_RX_ENABLE | EPCTRL_RX_DATA_TOGGLE_RESET | (typ
                        << EPCTRL_RX_TYPE_SHIFT))
                } else {
                    val & !EPCTRL_RX_ENABLE
                }
            },
            EndptCtrlUpdate::Configure { way: Direction::In, ep_type, enable } => {
                let typ: u32 = endpoint_type_bits(ep_type);
                let val: u32 = current & !(3u32 << EPCTRL_TX_TYPE_SHIFT);
                if enable {
                    val | (EPCTRL_TX_ENABLE | EPCTRL_TX_DATA_TOGGLE_RESET | (typ
                        << EPCTRL_TX_TYPE_SHIFT))
                } else {
                    val & !EPCTRL_TX_ENABLE
                }
            },
            EndptCtrlUpdate::Stall { way: Direction::Out, stalled } => {
                if stalled {
                    current | EPCTRL_RX_STALL
                } else {
                    current & !EPCTRL_RX_STALL
                }
            },
            EndptCtrlUpdate::Stall { way: Direction::In, stalled } => {
                if stalled {
                    current | EPCTRL_TX_STALL
                } else {
                    current & !EPCTRL_TX_STALL
                }
            },
        }
    }

    pub open spec fn way(self) -> Direction {
        match self {
            EndptCtrlUpdate::Configure { way, .. } => way,
            EndptCtrlUpdate::Stall { way, .. } => way,
        }
    }
}

/// Updating one direction of an endpoint leaves the half word of the other direction alone.
pub proof fn directions_are_controlled_apart(update: EndptCtrlUpdate, current: u32)
    ensures
        update.way() is Out ==> update.applied(current) >> 16 == current >> 16,
        update.way() is In ==> update.applied(current) & 0xffff == current & 0xffff,
{
    let t = match update {
        EndptCtrlUpdate::Configure { ep_type, .. } => type_code(ep_type),
        EndptCtrlUpdate::Stall { .. } => 0u32,
    };
    assert({
        let rx = current & !(3u32 << 2u32);
        let tx = current & !(3u32 << 18u32);
        &&& (rx | (0x80u32 | 0x40u32 | (t << 2u32))) >> 16 == current >> 16
        &&& (rx & !0x80u32) >> 16 == current >> 16
        &&& (tx | (0x80_0000u32 | 0x40_0000u32 | (t << 18u32))) & 0xffff == current & 0xffff
        &&& (tx & !0x80_0000u32) & 0xffff == current & 0xffff
        &&& (current | 1u32) >> 16 == current >> 16
        &&& (current & !1u32) >> 16 == current >> 16
        &&& (current | 0x1_0000u32) & 0xffff == current & 0xffff
        &&& (current & !0x1_0000u32) & 0xffff == current & 0xffff
    }) by (bit_vector)
        requires
            t < 4,
    ;
}

/// The tasks that can be woken.
#[derive(Debug, Clone, Copy, PartialEq, Eq, Structural)]
pub enum Waker {
    Bus,
    Control,
    DataIn,
    DataOut,
}

/// One access made on behalf of a USB controller.
#[derive(Debug, Clone, Copy, PartialEq, Eq, Structural)]
pub enum UsbOp {
    Slcr(SlcrOp),
    /// Write a range of the data cache back to memory: [`cache::clean_data_cache_range`].
    Clean { addr: u32, len: usize },
    /// Drop a range of the data cache: [`cache::invalidate_data_cache_range`].
    Invalidate { addr: u32, len: usize },
    ModifyUsbCmd(CommandUpdate),
    WriteUsbMode(UsbMode),
    WriteUsbSts(UsbStatus),
    WriteUsbIntr(UsbInterrupt),
    WriteEndptSetupStat(EndpointSetupStatus),
    WriteEndptComplete(EndpointBitmap),
    WriteOtgSc(OtgSc),
    WritePortSc1(PortSc1),
    WriteEndpointListAddr(EndpointListAddress),
    WriteDeviceAddr(DeviceAddress),
    ModifyEndptCtrl { index: usize, update: EndptCtrlUpdate },
    WriteEndptPrime(EndpointBitmap),
    /// Write the flush bit of the endpoint and wait with [`FlushWait`].
    Flush(EndpointAddress),
    /// Write the next descriptor and the token of the endpoint's queue head to memory.
    AttachDescriptor(EndpointAddress),
    /// Read the command register and go on with [`UsbDevice::link_step`] until the
    /// descriptor of the endpoint is linked.
    AwaitLink(EndpointAddress),
    Wake(Waker),
}

pub open spec fn slcr_ops(ops: Seq<SlcrOp>) -> Seq<UsbOp> {
    Seq::new(ops.len(), |i: int| UsbOp::Slcr(ops[i]))
}

fn push_slcr(out: &mut Vec<UsbOp>, ops: &Vec<SlcrOp>)
    ensures
        final(out)@ == old(out)@ + slcr_ops(ops@),
{
    let ghost before = out@;
    let mut i: usize = 0;
    while i < ops.len()
        invariant
            i <= ops.len(),
            out@ == before + slcr_ops(ops@).take(i as int),
        decreases ops.len() - i,
    {
        out.push(UsbOp::Slcr(ops[i]));
        assert(slcr_ops(ops@).take(i + 1) =~= slcr_ops(ops@).take(i as int).push(
            UsbOp::Slcr(ops@[i as int]),
        ));
        i = i + 1;
    }
    assert(slcr_ops(ops@).take(i as int) =~= slcr_ops(ops@));
}

/// The outcome of waiting for a status.
#[derive(Debug, Clone, Copy, PartialEq, Eq, Structural)]
pub enum WaitStep {
    /// Read the status again.
    Again,
    Done,
    TimedOut,
}

/// Waiting for an endpoint flush.
#[derive(Debug, Clone, Copy, PartialEq, Eq, Structural)]
pub struct FlushWait {
    pub addr: EndpointAddress,
    pub reads_left: usize,
}

impl FlushWait {
    pub fn new(addr: EndpointAddress) -> (r: Self)
        ensures
            r == (FlushWait { addr, reads_left: ENDPOINT_FLUSH_TIMEOUT_ITERS }),
    {
        FlushWait { addr, reads_left: ENDPOINT_FLUSH_TIMEOUT_ITERS }
    }

    /// One read of the status. The flush is done when the endpoint is neither
    /// being primed, nor flushed, nor active.
    pub fn step(
        &mut self,
        endptprime: EndpointBitmap,
        endptflush: EndpointBitmap,
        endptstatus: EndpointBitmap,
    ) -> (r: WaitStep)
        requires
            old(self).addr.number() < 16,
            old(self).reads_left > 0,
        ensures
            final(self).addr == old(self).addr,
            final(self).reads_left == old(self).reads_left - 1,
            ({
                let a = old(self).addr;
                r == (if !bitmap_holds(endptprime, a) && !bitmap_holds(endptflush, a)
                    && !bitmap_holds(endptstatus, a) {
                    WaitStep::Done
                } else if old(self).reads_left == 1 {
                    WaitStep::TimedOut
                } else {
                    WaitStep::Again
                })
            }),
    {
        self.reads_left = self.reads_left - 1;
        if !endpoint_bitmap_is_set(endptprime, self.addr) && !endpoint_bitmap_is_set(
            endptflush,
            self.addr,
        ) && !endpoint_bitmap_is_set(endptstatus, self.addr) {
            WaitStep::Done
        } else if self.reads_left == 0 {
            WaitStep::TimedOut
        } else {
            WaitStep::Again
        }
    }

    /// What a wait that timed out reports.
    pub fn error(&self) -> (r: UsbError)
        ensures
            r == UsbError::EndpointFlushTimedOut(self.addr),
    {
        UsbError::EndpointFlushTimedOut(self.addr)
    }
}

/// Waiting for a controller reset.
#[derive(Debug, Clone, Copy, PartialEq, Eq, Structural)]
pub struct ResetWait {
    pub reads_left: usize,
}

impl ResetWait {
    pub fn new() -> (r: Self)
        ensures
            r.reads_left == CONTROLLER_RESET_TIMEOUT_ITERS,
    {
        ResetWait { reads_left: CONTROLLER_RESET_TIMEOUT_ITERS }
    }

    /// One read of the command register. Whatever ends the wait, the register is
    /// read once more for [`UsbController::init_device_mode`].
    pub fn step(&mut self, cmd: UsbCommand) -> (r: WaitStep)
        requires
            old(self).reads_left > 0,
        ensures
            final(self).reads_left == old(self).reads_left - 1,
            r == (if !bits::bit(cmd.raw, 1) {
                WaitStep::Done
            } else if old(self).reads_left == 1 {
                WaitStep::TimedOut
            } else {
                WaitStep::Again
            }),
    {
        self.reads_left = self.reads_left - 1;
        if !cmd.controller_reset() {
            WaitStep::Done
        } else if self.reads_left == 0 {
            WaitStep::TimedOut
        } else {
            WaitStep::Again
        }
    }
}

/// Registers that were read to set device mode up.
#[derive(Debug, Clone, Copy, PartialEq, Eq, Structural)]
pub struct InitRegisters {
    /// Read after the wait for the controller reset.
    pub usbcmd: UsbCommand,
    pub usbsts: UsbStatus,
    pub endptsetupstat: EndpointSetupStatus,
    pub endptcomplete: EndpointBitmap,
    pub otgsc: OtgSc,
    /// Read after the controller was started. The accesses that start it do not depend
    /// on it.
    pub otgsc_running: OtgSc,
}

/// Registers that were read to service an interrupt.
#[derive(Debug, Clone, Copy, PartialEq, Eq, Structural)]
pub struct InterruptRegisters {
    pub usbsts: UsbStatus,
    pub endptsetupstat: EndpointSetupStatus,
    pub endptcomplete: EndpointBitmap,
    pub otgsc: OtgSc,
    pub portsc1: PortSc1,
}

/// The mode register for device mode: no setup lockout, streaming off.
pub open spec fn device_mode() -> u32 {
    bits::set_bit(
        bits::set_bit(bits::set_field(0, 0, 2, ControllerMode::Device.code()), 3, false),
        4,
        true,
    )
}

/// The interrupts that device mode enables.
pub open spec fn device_interrupts() -> u32 {
    bits::set_bit(
        bits::set_bit(
            bits::set_bit(
                bits::set_bit(bits::set_bit(bits::set_bit(0, 0, true), 1, true), 2, true),
                4,
                true,
            ),
            6,
            true,
        ),
        8,
        true,
    )
}

pub open spec fn reset_lines(id: UsbId) -> DualRefAndClockReset {
    DualRefAndClockReset {
        periph0_ref_rst: id is Usb0,
        periph1_ref_rst: id is Usb1,
        periph0_cpu1x_rst: id is Usb0,
        periph1_cpu1x_rst: id is Usb1,
    }
}

pub open spec fn no_reset() -> DualRefAndClockReset {
    DualRefAndClockReset {
        periph0_ref_rst: false,
        periph1_ref_rst: false,
        periph0_cpu1x_rst: false,
        periph1_cpu1x_rst: false,
    }
}

/// The accesses that reset a controller before it is waited for.
pub open spec fn reset_ops(id: UsbId) -> Seq<UsbOp> {
    slcr_ops(slcr::unlocked_one(SlcrOp::EnableAmbaClock(AmbaClock::Usb(id)))) + slcr_ops(
        slcr::reset_pulse(
            SlcrOp::WriteUsbReset(reset_lines(id)),
            1,
            SlcrOp::WriteUsbReset(no_reset()),
        ),
    ) + seq![UsbOp::ModifyUsbCmd(CommandUpdate::StopAndReset)]
}

/// The accesses that put a controller that was reset into device mode.
pub open spec fn device_mode_ops(regs: InitRegisters) -> Seq<UsbOp> {
    seq![
        UsbOp::WriteUsbMode(UsbMode { raw: device_mode() }),
        UsbOp::WriteUsbSts(
            UsbStatus { raw: regs.usbsts.raw & crate::pac::usb::USB_STATUS_ACK_MASK },
        ),
        UsbOp::WriteEndptSetupStat(
            EndpointSetupStatus {
                raw: regs.endptsetupstat.raw & crate::pac::usb::ENDPOINT_SETUP_STATUS_ACK_MASK,
            },
        ),
        UsbOp::WriteEndptComplete(regs.endptcomplete),
        UsbOp::WriteOtgSc(OtgSc { raw: regs.otgsc.power_detection(true) }),
        UsbOp::WriteUsbIntr(UsbInterrupt { raw: device_interrupts() }),
        UsbOp::ModifyUsbCmd(CommandUpdate::Run),
        UsbOp::Wake(Waker::Bus),
        UsbOp::Wake(Waker::Control),
    ]
}

impl ControllerRuntime {
    /// With the event pushed, if there is one.
    pub open spec fn with_event(self, bits: Option<u32>) -> Self {
        match bits {
            Some(bits) => ControllerRuntime { event_flags: self.event_flags | bits, ..self },
            None => self,
        }
    }

    /// With the power state recorded and the event of its change pushed.
    pub open spec fn with_power(self, present: bool) -> Self {
        ControllerRuntime { power_present: present, ..self }.with_event(
            runtime::power_event(self.power_present, present),
        )
    }

    fn note_power(&mut self, present: bool)
        ensures
            *final(self) == old(self).with_power(present),
    {
        if let Some(event_bits) = self.update_power_present(present) {
            self.push_event(event_bits);
        }
    }

    /// The state after device mode was entered.
    pub open spec fn device_mode(self, otgsc: OtgSc) -> Self {
        ControllerRuntime {
            suspended: false,
            ..self.enabling(EndpointAddress::of(0, Direction::Out), true).enabling(
                EndpointAddress::of(0, Direction::In),
                true,
            )
        }.with_power(power_present(otgsc))
    }

    /// The state after a bus reset was seen.
    pub open spec fn bus_reset(self) -> Self {
        ControllerRuntime {
            event_flags: self.event_flags | EVENT_RESET,
            reset_count: if self.reset_count == u32::MAX {
                0
            } else {
                (self.reset_count + 1) as u32
            },
            suspended: false,
            ..self.without_endpoints()
        }
    }

    /// The state after an interrupt was serviced.
    pub open spec fn serviced(self, regs: InterruptRegisters) -> Self {
        let r = interrupt_result(regs);
        let a = if r.reset {
            self.bus_reset()
        } else {
            self
        };
        let b = a.with_completed(
            Direction::Out,
            a.completed_out | r.completed_out_endpoints,
        ).with_completed(Direction::In, a.completed_in | r.completed_in_endpoints);
        let c = if r.suspend {
            ControllerRuntime {
                suspended: true,
                event_flags: b.event_flags | EVENT_SUSPEND,
                ..b
            }
        } else {
            b
        };
        let connected = bits::bit(regs.portsc1.raw, 0);
        let d = if !r.port_change {
            c
        } else if c.suspended && connected {
            ControllerRuntime {
                suspended: false,
                event_flags: c.event_flags | runtime::EVENT_RESUME,
                ..c
            }
        } else if !connected {
            ControllerRuntime { suspended: false, ..c }
        } else {
            c
        };
        d.with_power(power_present(regs.otgsc))
    }

    /// Whether servicing an interrupt reports a resume.
    pub open spec fn resumes(self, regs: InterruptRegisters) -> bool {
        let r = interrupt_result(regs);
        let suspended = r.suspend || (self.suspended && !r.reset);
        r.port_change && suspended && bits::bit(regs.portsc1.raw, 0)
    }
}

/// What an interrupt reports, but for a resume.
pub open spec fn interrupt_result(regs: InterruptRegisters) -> InterruptResult {
    let s = regs.usbsts.raw;
    InterruptResult {
        usb_interrupt: bits::bit(s, 0),
        usb_error: bits::bit(s, 1) || bits::bit(s, 4),
        port_change: bits::bit(s, 2),
        reset: bits::bit(s, 6),
        suspend: bits::bit(s, 8),
        resume: false,
        setup_endpoints: bits::field(regs.endptsetupstat.raw, 0, 16) as u16,
        completed_out_endpoints: bitmap_half(regs.endptcomplete, Direction::Out),
        completed_in_endpoints: bitmap_half(regs.endptcomplete, Direction::In),
    }
}

/// A port change is acknowledged where one is flagged.
pub open spec fn port_ack_ops(port: PortSc1) -> Seq<UsbOp> {
    if bits::bit(port.raw, 1) || bits::bit(port.raw, 3) || bits::bit(port.raw, 5) {
        seq![
            UsbOp::WritePortSc1(
                PortSc1 {
                    raw: port.raw | (port.raw & crate::pac::usb::PORTSC1_CHANGE_ACK_MASK),
                },
            ),
        ]
    } else {
        Seq::empty()
    }
}

/// The accesses that end an interrupt. What was read as pending is acknowledged.
pub open spec fn service_ops(regs: InterruptRegisters) -> Seq<UsbOp> {
    (if bits::bit(regs.usbsts.raw, 2) {
        port_ack_ops(regs.portsc1)
    } else {
        Seq::empty()
    }) + seq![
        UsbOp::WriteUsbSts(
            UsbStatus { raw: regs.usbsts.raw & crate::pac::usb::USB_STATUS_ACK_MASK },
        ),
        UsbOp::WriteEndptComplete(regs.endptcomplete),
        UsbOp::WriteOtgSc(
            OtgSc { raw: regs.otgsc.power_detection(bits::bit(regs.otgsc.raw, 28)) },
        ),
        UsbOp::Wake(Waker::Bus),
        UsbOp::Wake(Waker::Control),
        UsbOp::Wake(Waker::DataIn),
        UsbOp::Wake(Waker::DataOut),
    ]
}

/// Appends the acknowledgement of a port change.
pub fn acknowledge_port_change(port: PortSc1, out: &mut Vec<UsbOp>)
    ensures
        final(out)@ == old(out)@ + port_ack_ops(port),
{
    let ghost before = out@;
    if !port.connect_status_change() && !port.port_enable_disable_change()
        && !port.overcurrent_change() {
        assert(out@ =~= before + port_ack_ops(port));
        return;
    }
    out.push(UsbOp::WritePortSc1(PortSc1::ack_changes_from(port)));
    assert(out@ =~= before + port_ack_ops(port));
}

/// Reusable wrapper for one USB controller instance.
#[derive(Debug, Clone, Copy, PartialEq, Eq, Structural)]
pub struct UsbController {
    pub id: UsbId,
}

/// Cleaning a range, where the cache is ready and the range aligned.
pub fn clean_range(ready: bool, addr: u32, len: usize) -> (r: Result<UsbOp, AlignmentError>)
    ensures
        r == match cache::range_error(ready, addr, len) {
            Some(e) => Err(e),
            None => Ok(UsbOp::Clean { addr, len }),
        },
{
    match cache::check_range(ready, addr, len) {
        Some(e) => Err(e),
        None => Ok(UsbOp::Clean { addr, len }),
    }
}

/// Invalidating a range, where the cache is ready and the range aligned.
pub fn invalidate_range(ready: bool, addr: u32, len: usize) -> (r: Result<UsbOp, AlignmentError>)
    ensures
        r == match cache::range_error(ready, addr, len) {
            Some(e) => Err(e),
            None => Ok(UsbOp::Invalidate { addr, len }),
        },
{
    match cache::check_range(ready, addr, len) {
        Some(e) => Err(e),
        None => Ok(UsbOp::Invalidate { addr, len }),
    }
}

/// The eight bytes of a setup packet, of which the words hold the low ones first.
pub open spec fn packet_of(word0: u32, word1: u32) -> Seq<u8> {
    seq![
        (word0 & 0xff) as u8,
        ((word0 >> 8) & 0xff) as u8,
        ((word0 >> 16) & 0xff) as u8,
        ((word0 >> 24) & 0xff) as u8,
        (word1 & 0xff) as u8,
        ((word1 >> 8) & 0xff) as u8,
        ((word1 >> 16) & 0xff) as u8,
        ((word1 >> 24) & 0xff) as u8,
    ]
}

/// The bytes of a setup packet put together again give the words.
pub proof fn packet_bytes_make_the_words(word0: u32, word1: u32)
    ensures
        ({
            let p = packet_of(word0, word1);
            &&& p.len() == SETUP_PACKET_SIZE
            &&& word0 == p[0] + p[1] * 0x100 + p[2] * 0x1_0000 + p[3] * 0x100_0000
            &&& word1 == p[4] + p[5] * 0x100 + p[6] * 0x1_0000 + p[7] * 0x100_0000
        }),
{
    lemma_word_bytes(word0);
    lemma_word_bytes(word1);
}

proof fn lemma_word_bytes(w: u32)
    by (bit_vector)
    ensures
        w == (w & 0xff) + ((w >> 8) & 0xff) * 0x100 + ((w >> 16) & 0xff) * 0x1_0000 + ((w >> 24)
            & 0xff) * 0x100_0000,
        w & 0xff <= 0xff,
        (w >> 8) & 0xff <= 0xff,
        (w >> 16) & 0xff <= 0xff,
        (w >> 24) & 0xff <= 0xff,
{
}

fn low_byte(w: u32) -> (r: u8)
    ensures
        r == (w & 0xff) as u8,
        (w & 0xff) <= 0xff,
{
    assert(w & 0xff <= 0xff) by (bit_vector);
    (w & 0xff) as u8
}

impl UsbController {
    pub fn new(id: UsbId) -> (r: Self)
        ensures
            r.id == id,
    {
        UsbController { id }
    }

    pub fn usb0() -> (r: Self)
        ensures
            r.id == UsbId::Usb0,
    {
        Self::new(UsbId::Usb0)
    }

    pub fn usb1() -> (r: Self)
        ensures
            r.id == UsbId::Usb1,
    {
        Self::new(UsbId::Usb1)
    }

    /// Controller identifier.
    pub fn id(&self) -> (r: UsbId)
        ensures
            r == self.id,
    {
        self.id
    }

    /// Couple this controller with persistent DMA-visible device resources.
    pub fn into_device(
        self,
        resources: UsbResources,
        runtime: ControllerRuntime,
        layout: DmaLayout,
    ) -> (r: UsbDevice)
        ensures
            r == (UsbDevice { controller: self, resources, runtime, layout }),
    {
        UsbDevice { controller: self, resources, runtime, layout }
    }

    /// Resets the controller. The caller then waits with [`ResetWait`].
    pub fn reset_via_slcr(&self) -> (ops: Vec<UsbOp>)
        ensures
            ops@ == reset_ops(self.id),
    {
        let mut ops: Vec<UsbOp> = Vec::new();
        let clock = slcr::with_unlocked_one(SlcrOp::EnableAmbaClock(AmbaClock::Usb(self.id)));
        push_slcr(&mut ops, &clock);
        let first = match self.id {
            UsbId::Usb0 => true,
            UsbId::Usb1 => false,
        };
        let pulse = slcr::with_reset_pulse(
            SlcrOp::WriteUsbReset(
                DualRefAndClockReset {
                    periph0_ref_rst: first,
                    periph1_ref_rst: !first,
                    periph0_cpu1x_rst: first,
                    periph1_cpu1x_rst: !first,
                },
            ),
            1,
            SlcrOp::WriteUsbReset(
                DualRefAndClockReset {
                    periph0_ref_rst: false,
                    periph1_ref_rst: false,
                    periph0_cpu1x_rst: false,
                    periph1_cpu1x_rst: false,
                },
            ),
        );
        push_slcr(&mut ops, &pulse);
        ops.push(UsbOp::ModifyUsbCmd(CommandUpdate::StopAndReset));
        assert(ops@ =~= reset_ops(self.id));
        ops
    }

    /// Puts a controller that was reset into minimal device mode and enables core interrupts.
    pub fn init_device_mode(&self, rt: &mut ControllerRuntime, regs: InitRegisters) -> (r: Result<
        Vec<UsbOp>,
        UsbInitError,
    >)
        ensures
            bits::bit(regs.usbcmd.raw, 1) ==> {
                &&& r == Err::<Vec<UsbOp>, UsbInitError>(UsbInitError::ControllerResetTimedOut)
                &&& *final(rt) == *old(rt)
            },
            !bits::bit(regs.usbcmd.raw, 1) ==> {
                &&& r is Ok
                &&& r->Ok_0@ == device_mode_ops(regs)
                &&& *final(rt) == old(rt).device_mode(regs.otgsc_running)
            },
    {
        if regs.usbcmd.controller_reset() {
            return Err(UsbInitError::ControllerResetTimedOut);
        }
        let mode = UsbMode::new_with_raw_value(0).with_controller_mode(
            ControllerMode::Device,
        ).with_setup_lockout_mode(false).with_stream_disable_mode(true);
        let intr = UsbInterrupt::new_with_raw_value(0).with_usb_interrupt(
            true,
        ).with_usb_error_interrupt(true).with_port_change_detect(true).with_system_error(
            true,
        ).with_reset_received(true).with_suspend(true);
        let ops: Vec<UsbOp> = vec![
            UsbOp::WriteUsbMode(mode),
            UsbOp::WriteUsbSts(UsbStatus::ack_from(regs.usbsts)),
            UsbOp::WriteEndptSetupStat(EndpointSetupStatus::ack_from(regs.endptsetupstat)),
            UsbOp::WriteEndptComplete(EndpointBitmap::ack_from(regs.endptcomplete)),
            UsbOp::WriteOtgSc(OtgSc::power_detection_irq_write(true, regs.otgsc)),
            UsbOp::WriteUsbIntr(intr),
            UsbOp::ModifyUsbCmd(CommandUpdate::Run),
            UsbOp::Wake(Waker::Bus),
            UsbOp::Wake(Waker::Control),
        ];
        assert(ops@ =~= device_mode_ops(regs));
        rt.set_enabled(ep0_addr(Direction::Out), true);
        rt.set_enabled(ep0_addr(Direction::In), true);
        rt.suspended = false;
        rt.note_power(power_present_from_otgsc(regs.otgsc_running));
        Ok(ops)
    }

    /// Registers a queue head list at `base` for endpoint operation, with the
    /// control endpoint ready. Device mode has been entered before.
    pub fn init_device_mode_with_queue_heads(
        &self,
        rt: &mut ControllerRuntime,
        queue_heads: &mut EndpointQueueHeadList,
        base: u32,
    ) -> (r: Result<Vec<UsbOp>, UsbInitError>)
        ensures
            base % QUEUE_HEAD_LIST_ALIGN != 0 ==> {
                &&& r == Err::<Vec<UsbOp>, UsbInitError>(UsbInitError::QueueHeadAlignment)
                &&& *final(rt) == *old(rt)
                &&& final(queue_heads)@ == old(queue_heads)@
            },
            base % QUEUE_HEAD_LIST_ALIGN == 0 ==> {
                &&& r is Ok
                &&& r->Ok_0@ == seq![
                    UsbOp::WriteEndpointListAddr(list_address(base)),
                    ctrl_op(EndpointAddress::of(0, Direction::Out), EndpointType::Control, true),
                    ctrl_op(EndpointAddress::of(0, Direction::In), EndpointType::Control, true),
                    UsbOp::Clean { addr: base, len: QUEUE_HEAD_LIST_SIZE },
                ]
                &&& *final(rt) == old(rt).enabling(
                    EndpointAddress::of(0, Direction::Out),
                    true,
                ).enabling(EndpointAddress::of(0, Direction::In), true)
                &&& final(queue_heads)@ == old(queue_heads)@.update(
                    0,
                    (EndpointQueueHead {
                        capabilities: capabilities_of(64, true, true),
                        ..old(queue_heads)@[0]
                    }).idle(),
                ).update(
                    1,
                    (EndpointQueueHead {
                        capabilities: capabilities_of(64, false, true),
                        ..old(queue_heads)@[1]
                    }).idle(),
                )
            },
    {
        if base % QUEUE_HEAD_LIST_ALIGN != 0 {
            return Err(UsbInitError::QueueHeadAlignment);
        }
        let ep0_out = ep0_addr(Direction::Out);
        let ep0_in = ep0_addr(Direction::In);
        let mut head_out = queue_heads.endpoint(0, Direction::Out);
        head_out.configure(64, true, true);
        head_out.reset_overlay();
        queue_heads.set_endpoint(0, Direction::Out, head_out);
        let mut head_in = queue_heads.endpoint(0, Direction::In);
        head_in.configure(64, false, true);
        head_in.reset_overlay();
        queue_heads.set_endpoint(0, Direction::In, head_in);
        let mut ops: Vec<UsbOp> = vec![UsbOp::WriteEndpointListAddr(queue_head_list_address(base))];
        if let Some(op) = self.configure_endpoint(rt, ep0_out, EndpointType::Control, true) {
            ops.push(op);
        }
        if let Some(op) = self.configure_endpoint(rt, ep0_in, EndpointType::Control, true) {
            ops.push(op);
        }
        ops.push(UsbOp::Clean { addr: base, len: QUEUE_HEAD_LIST_SIZE });
        assert(ops@ =~= seq![
            UsbOp::WriteEndpointListAddr(list_address(base)),
            ctrl_op(EndpointAddress::of(0, Direction::Out), EndpointType::Control, true),
            ctrl_op(EndpointAddress::of(0, Direction::In), EndpointType::Control, true),
            UsbOp::Clean { addr: base, len: QUEUE_HEAD_LIST_SIZE },
        ]);
        Ok(ops)
    }

    /// Stop the controller and mask interrupts.
    pub fn disable(&self, rt: &mut ControllerRuntime, otgsc: OtgSc) -> (ops: Vec<UsbOp>)
        ensures
            ops@ == disable_ops(otgsc),
            *final(rt) == (ControllerRuntime {
                suspended: false,
                power_present: false,
                ..old(rt).without_endpoints()
            }),
    {
        let ops: Vec<UsbOp> = vec![
            UsbOp::WriteUsbIntr(UsbInterrupt::new_with_raw_value(0)),
            UsbOp::WriteOtgSc(OtgSc::power_detection_irq_write(false, otgsc)),
            UsbOp::ModifyUsbCmd(CommandUpdate::Stop),
            UsbOp::Wake(Waker::Bus),
            UsbOp::Wake(Waker::Control),
        ];
        assert(ops@ =~= disable_ops(otgsc));
        rt.clear_endpoint_state();
        rt.suspended = false;
        rt.set_power_present(false);
        ops
    }

    /// Enables or disables an endpoint. Indices without a control register have none written.
    pub fn configure_endpoint(
        &self,
        rt: &mut ControllerRuntime,
        addr: EndpointAddress,
        ep_type: EndpointType,
        enable: bool,
    ) -> (op: Option<UsbOp>)
        requires
            addr.number() < 16,
        ensures
            op == (if addr.is_real() {
                Some(ctrl_op(addr, ep_type, enable))
            } else {
                None
            }),
            *final(rt) == old(rt).enabling(addr, enable),
    {
        rt.set_enabled(addr, enable);
        if addr.index() >= MAX_ENDPOINTS {
            return None;
        }
        Some(
            UsbOp::ModifyEndptCtrl {
                index: addr.index(),
                update: EndptCtrlUpdate::Configure { way: addr.direction(), ep_type, enable },
            },
        )
    }

    /// Services an interrupt, given the registers that were read.
    pub fn poll_interrupt_result(&self, rt: &mut ControllerRuntime, regs: InterruptRegisters) -> (r:
        (InterruptResult, Vec<UsbOp>))
        ensures
            r.0 == (InterruptResult { resume: old(rt).resumes(regs), ..interrupt_result(regs) }),
            r.1@ == service_ops(regs),
            *final(rt) == old(rt).serviced(regs),
    {
        poll_interrupt_result_regs(rt, regs)
    }

    /// One look while waiting for a bus reset. Waiting is over where one was seen.
    pub fn wait_for_bus_reset_blocking(
        &self,
        rt: &mut ControllerRuntime,
        regs: InterruptRegisters,
    ) -> (r: (Option<Result<(), UsbInitError>>, Vec<UsbOp>))
        ensures
            r.0 == (if interrupt_result(regs).reset {
                Some(Ok::<(), UsbInitError>(()))
            } else {
                None
            }),
            r.1@ == service_ops(regs),
            *final(rt) == old(rt).serviced(regs),
    {
        let (result, ops) = self.poll_interrupt_result(rt, regs);
        if result.reset {
            (Some(Ok(())), ops)
        } else {
            (None, ops)
        }
    }

    /// Whether a setup packet is pending for an endpoint.
    pub fn setup_pending(&self, endptsetupstat: EndpointSetupStatus, ep_index: usize) -> (r: bool)
        requires
            ep_index < 16,
        ensures
            r == ((bits::field(endptsetupstat.raw, 0, 16) as u16) & (1u16 << (ep_index as u16))
                != 0),
    {
        let bit: u16 = 1u16 << (ep_index as u16);
        endptsetupstat.setup_endpoints() & bit != 0
    }

    /// One attempt at reading a setup packet that is pending. The caller has set the
    /// setup tripwire, invalidated the queue head and read its setup words, and
    /// then read the command register. The packet is whole if the tripwire still
    /// stands; otherwise the caller starts over.
    pub fn read_setup_packet(&self, word0: u32, word1: u32, usbcmd: UsbCommand) -> (r: Option<
        [u8; 8],
    >)
        ensures
            r is Some <==> bits::bit(usbcmd.raw, 13),
            r is Some ==> r->0@ == packet_of(word0, word1),
    {
        let packet: [u8; 8] = [
            low_byte(word0),
            low_byte(word0 >> 8),
            low_byte(word0 >> 16),
            low_byte(word0 >> 24),
            low_byte(word1),
            low_byte(word1 >> 8),
            low_byte(word1 >> 16),
            low_byte(word1 >> 24),
        ];
        assert(packet@ =~= packet_of(word0, word1));
        if usbcmd.setup_tripwire() {
            Some(packet)
        } else {
            None
        }
    }

    /// The accesses that follow a setup packet that was read.
    pub fn finish_setup_packet(&self, ep_index: usize) -> (ops: Vec<UsbOp>)
        requires
            ep_index < 16,
        ensures
            ops@ == setup_done_ops(ep_index as int),
    {
        let bit: u16 = 1u16 << (ep_index as u16);
        let ops: Vec<UsbOp> = vec![
            UsbOp::WriteEndptSetupStat(EndpointSetupStatus::ack_mask(bit)),
            UsbOp::ModifyUsbCmd(CommandUpdate::SetupTripwire(false)),
        ];
        assert(ops@ =~= seq![
            UsbOp::WriteEndptSetupStat(
                EndpointSetupStatus { raw: (1u16 << (ep_index as u16)) as u32 },
            ),
            UsbOp::ModifyUsbCmd(CommandUpdate::SetupTripwire(false)),
        ]);
        ops
    }

    /// Describes a transfer, links it to the queue head of its endpoint and primes
    /// the endpoint. The descriptor lies at `dtd_addr`, the list at `list_addr`.
    pub fn prime_transfer(
        &self,
        cache_ready: bool,
        queue_heads: &mut EndpointQueueHeadList,
        list_addr: u32,
        addr: EndpointAddress,
        dtd: &mut TransferDescriptor,
        dtd_addr: u32,
        buf_addr: u32,
        len: usize,
        interrupt_on_complete: bool,
    ) -> (r: Result<Vec<UsbOp>, UsbInitError>)
        requires
            addr.is_real(),
            len % 0x1_0000 <= 0x7fff,
        ensures
            *final(dtd) == TransferDescriptor::transfer(buf_addr, len, interrupt_on_complete),
            final(queue_heads)@ == old(queue_heads)@.update(
                addr.slot(),
                old(queue_heads)@[addr.slot()].attached(dtd_addr),
            ),
            match (
                cache::range_error(cache_ready, dtd_addr, TRANSFER_DESCRIPTOR_SIZE),
                cache::range_error(cache_ready, list_addr, QUEUE_HEAD_LIST_SIZE),
            ) {
                (Some(e), _) => r == Err::<Vec<UsbOp>, UsbInitError>(
                    UsbInitError::DmaAlignment(e),
                ),
                (None, Some(e)) => r == Err::<Vec<UsbOp>, UsbInitError>(
                    UsbInitError::DmaAlignment(e),
                ),
                (None, None) => r is Ok && r->Ok_0@ == seq![
                    UsbOp::Clean { addr: dtd_addr, len: TRANSFER_DESCRIPTOR_SIZE },
                    UsbOp::Clean { addr: list_addr, len: QUEUE_HEAD_LIST_SIZE },
                    UsbOp::WriteEndptPrime(bitmap_of(addr)),
                ],
            },
    {
        dtd.configure(buf_addr, len, interrupt_on_complete);
        let mut head = queue_heads.endpoint(addr.index(), addr.direction());
        head.attach_dtd(dtd_addr);
        queue_heads.set_endpoint(addr.index(), addr.direction(), head);
        let clean_dtd = match clean_range(cache_ready, dtd_addr, TRANSFER_DESCRIPTOR_SIZE) {
            Ok(op) => op,
            Err(e) => return Err(UsbInitError::from(e)),
        };
        let clean_list = match clean_range(cache_ready, list_addr, QUEUE_HEAD_LIST_SIZE) {
            Ok(op) => op,
            Err(e) => return Err(UsbInitError::from(e)),
        };
        let ops: Vec<UsbOp> = vec![
            clean_dtd,
            clean_list,
            UsbOp::WriteEndptPrime(endpoint_bitmap_for(addr)),
        ];
        assert(ops@ =~= seq![
            UsbOp::Clean { addr: dtd_addr, len: TRANSFER_DESCRIPTOR_SIZE },
            UsbOp::Clean { addr: list_addr, len: QUEUE_HEAD_LIST_SIZE },
            UsbOp::WriteEndptPrime(bitmap_of(addr)),
        ]);
        Ok(ops)
    }

    /// Makes a buffer of `len` bytes ready to be written by the controller.
    pub fn prepare_out_buffer(&self, cache_ready: bool, buffer: u32, len: usize) -> (r: Result<
        UsbOp,
        UsbInitError,
    >)
        ensures
            r == match cache::range_error(cache_ready, buffer, len) {
                Some(e) => Err(UsbInitError::DmaAlignment(e)),
                None => Ok(UsbOp::Invalidate { addr: buffer, len }),
            },
    {
        match invalidate_range(cache_ready, buffer, len) {
            Ok(op) => Ok(op),
            Err(e) => Err(UsbInitError::from(e)),
        }
    }

    /// Makes a buffer of `len` bytes ready to be read by the controller.
    pub fn prepare_in_buffer(&self, cache_ready: bool, buffer: u32, len: usize) -> (r: Result<
        UsbOp,
        UsbInitError,
    >)
        ensures
            r == match cache::range_error(cache_ready, buffer, len) {
                Some(e) => Err(UsbInitError::DmaAlignment(e)),
                None => Ok(UsbOp::Clean { addr: buffer, len }),
            },
    {
        match clean_range(cache_ready, buffer, len) {
            Ok(op) => Ok(op),
            Err(e) => Err(UsbInitError::from(e)),
        }
    }

    /// Makes what the controller wrote to a buffer of `len` bytes visible.
    pub fn finish_out_buffer(&self, cache_ready: bool, buffer: u32, len: usize) -> (r: Result<
        UsbOp,
        UsbInitError,
    >)
        ensures
            r == match cache::range_error(cache_ready, buffer, len) {
                Some(e) => Err(UsbInitError::DmaAlignment(e)),
                None => Ok(UsbOp::Invalidate { addr: buffer, len }),
            },
    {
        self.prepare_out_buffer(cache_ready, buffer, len)
    }

    /// Whether the transfer of an endpoint has completed, by an interrupt or by the
    /// completion register that was read. Then the descriptor at `dtd_addr` can be read.
    pub fn poll_transfer_complete(
        &self,
        rt: &mut ControllerRuntime,
        addr: EndpointAddress,
        endptcomplete: EndpointBitmap,
        cache_ready: bool,
        dtd_addr: u32,
    ) -> (r: (bool, Vec<UsbOp>))
        requires
            addr.number() < 16,
        ensures
            r.0 == (old(rt).has_completed(addr) || bitmap_holds(endptcomplete, addr)),
            r.1@ == (if old(rt).has_completed(addr) {
                invalidate_ops(cache_ready, dtd_addr)
            } else if bitmap_holds(endptcomplete, addr) {
                seq![UsbOp::WriteEndptComplete(bitmap_of(addr))] + invalidate_ops(
                    cache_ready,
                    dtd_addr,
                )
            } else {
                Seq::empty()
            }),
            *final(rt) == (if old(rt).has_completed(addr) {
                old(rt).taking(addr)
            } else {
                *old(rt)
            }),
    {
        let mut ops: Vec<UsbOp> = Vec::new();
        let taken = rt.take_completed(addr);
        let done = if taken {
            true
        } else {
            let complete = endpoint_bitmap_is_set(endptcomplete, addr);
            if complete {
                ops.push(UsbOp::WriteEndptComplete(endpoint_bitmap_for(addr)));
            }
            complete
        };
        if done {
            match invalidate_range(cache_ready, dtd_addr, TRANSFER_DESCRIPTOR_SIZE) {
                Ok(op) => ops.push(op),
                Err(_) => {},
            }
        }
        if taken {
            assert(ops@ =~= invalidate_ops(cache_ready, dtd_addr));
        } else if done {
            assert(ops@ =~= seq![UsbOp::WriteEndptComplete(bitmap_of(addr))] + invalidate_ops(
                cache_ready,
                dtd_addr,
            ));
        } else {
            assert(ops@ =~= Seq::<UsbOp>::empty());
        }
        (done, ops)
    }
}

/// A descriptor that cannot be invalidated is left as it is.
pub open spec fn invalidate_ops(cache_ready: bool, dtd_addr: u32) -> Seq<UsbOp> {
    if cache::range_error(cache_ready, dtd_addr, TRANSFER_DESCRIPTOR_SIZE) is None {
        seq![UsbOp::Invalidate { addr: dtd_addr, len: TRANSFER_DESCRIPTOR_SIZE }]
    } else {
        Seq::empty()
    }
}

pub open spec fn ctrl_op(addr: EndpointAddress, ep_type: EndpointType, enable: bool) -> UsbOp {
    UsbOp::ModifyEndptCtrl {
        index: addr.number() as usize,
        update: EndptCtrlUpdate::Configure { way: addr.way(), ep_type, enable },
    }
}

pub open spec fn disable_ops(otgsc: OtgSc) -> Seq<UsbOp> {
    seq![
        UsbOp::WriteUsbIntr(UsbInterrupt { raw: 0 }),
        UsbOp::WriteOtgSc(OtgSc { raw: otgsc.power_detection(false) }),
        UsbOp::ModifyUsbCmd(CommandUpdate::Stop),
        UsbOp::Wake(Waker::Bus),
        UsbOp::Wake(Waker::Control),
    ]
}

/// The list address register for a list at `base`.
pub open spec fn list_address(base: u32) -> EndpointListAddress {
    EndpointListAddress { raw: bits::set_field(0, 11, 21, base >> 11) }
}

fn queue_head_list_address(base: u32) -> (r: EndpointListAddress)
    ensures
        r == list_address(base),
{
    assert(base >> 11 < 0x20_0000) by (bit_vector);
    EndpointListAddress::new_with_raw_value(0).with_base_address(base >> 11)
}

/// The list address register of an aligned list holds its address.
pub proof fn list_address_is_the_base(base: u32)
    by (bit_vector)
    requires
        base % 2048 == 0,
    ensures
        bits::set_field(0, 11, 21, base >> 11) == base,
{
}

fn poll_interrupt_result_regs(rt: &mut ControllerRuntime, regs: InterruptRegisters) -> (r: (
    InterruptResult,
    Vec<UsbOp>,
))
    ensures
        r.0 == (InterruptResult { resume: old(rt).resumes(regs), ..interrupt_result(regs) }),
        r.1@ == service_ops(regs),
        *final(rt) == old(rt).serviced(regs),
{
    let status = regs.usbsts;
    let mut result = InterruptResult {
        usb_interrupt: status.usb_interrupt(),
        usb_error: status.usb_error_interrupt() || status.system_error(),
        port_change: status.port_change_detect(),
        reset: status.reset_received(),
        suspend: status.suspend(),
        resume: false,
        setup_endpoints: regs.endptsetupstat.setup_endpoints(),
        completed_out_endpoints: regs.endptcomplete.rx(),
        completed_in_endpoints: regs.endptcomplete.tx(),
    };
    proof {
        lemma_or_zero();
    }
    if result.reset {
        rt.clear_endpoint_state();
        rt.note_reset();
        rt.suspended = false;
        rt.push_event(EVENT_RESET);
    }
    if result.completed_out_endpoints != 0 {
        rt.push_completed(Direction::Out, result.completed_out_endpoints);
    }
    if result.completed_in_endpoints != 0 {
        rt.push_completed(Direction::In, result.completed_in_endpoints);
    }
    if result.suspend {
        rt.suspended = true;
        rt.push_event(EVENT_SUSPEND);
    }
    let mut ops: Vec<UsbOp> = Vec::new();
    if result.port_change {
        let connected = regs.portsc1.current_connect_status();
        let was_suspended = rt.suspended;
        match runtime::port_change_event_bits(was_suspended, connected) {
            Some(event_bits) => {
                rt.suspended = false;
                rt.push_event(event_bits);
                result.resume = true;
            },
            None => {
                if !connected {
                    rt.suspended = false;
                }
            },
        }
        acknowledge_port_change(regs.portsc1, &mut ops);
    }
    rt.note_power(power_present_from_otgsc(regs.otgsc));
    ops.push(UsbOp::WriteUsbSts(UsbStatus::ack_from(status)));
    ops.push(UsbOp::WriteEndptComplete(EndpointBitmap::ack_from(regs.endptcomplete)));
    ops.push(
        UsbOp::WriteOtgSc(
            OtgSc::power_detection_irq_write(
                power_detection_interrupts_enabled(regs.otgsc),
                regs.otgsc,
            ),
        ),
    );
    ops.push(UsbOp::Wake(Waker::Bus));
    ops.push(UsbOp::Wake(Waker::Control));
    ops.push(UsbOp::Wake(Waker::DataIn));
    ops.push(UsbOp::Wake(Waker::DataOut));
    assert(ops@ =~= service_ops(regs));
    (result, ops)
}

proof fn lemma_or_zero()
    by (bit_vector)
    ensures
        forall|x: u16| #[trigger] (x | 0u16) == x,
{
}

/// IRQ entry point: services an interrupt of controller `id`.
pub fn on_interrupt(id: UsbId, rt: &mut ControllerRuntime, regs: InterruptRegisters) -> (r: (
    InterruptResult,
    Vec<UsbOp>,
))
    ensures
        r.0 == (InterruptResult { resume: old(rt).resumes(regs), ..interrupt_result(regs) }),
        r.1@ == service_ops(regs),
        *final(rt) == old(rt).serviced(regs),
{
    UsbController::new(id).poll_interrupt_result(rt, regs)
}

/// A bus reset disables every endpoint and forgets old completions, and is reported.
pub proof fn bus_reset_is_reported(rt: ControllerRuntime, regs: InterruptRegisters, addr: EndpointAddress)
    requires
        interrupt_result(regs).reset,
        addr.number() < 16,
    ensures
        rt.serviced(regs).event_flags & EVENT_RESET != 0,
        !rt.serviced(regs).enables(addr),
        !rt.serviced(regs).stalls(addr),
        rt.serviced(regs).has_completed(addr) == bitmap_holds(regs.endptcomplete, addr),
        rt.serviced(regs).reset_count != rt.reset_count,
{
    runtime::cleared_endpoints_are_idle(rt, addr);
    let f = rt.event_flags;
    assert(forall|x: u32| #[trigger] (x | 1u32) & 1u32 != 0) by (bit_vector);
    assert(forall|x: u32, y: u32| x & 1u32 != 0 ==> #[trigger] (x | y) & 1u32 != 0)
        by (bit_vector);
    assert((f | EVENT_RESET) & EVENT_RESET != 0);
    assert(forall|x: u16| #[trigger] (0u16 | x) == x) by (bit_vector);
}

/// What an endpoint looks like before it is primed: the token of its descriptor
/// in memory, the endpoint status register, and whether the data cache is ready for DMA.
#[derive(Debug, Clone, Copy, PartialEq, Eq, Structural)]
pub struct EndpointSeen {
    pub dtd_token: u32,
    pub endptstatus: EndpointBitmap,
    pub cache_ready: bool,
}

impl EndpointSeen {
    /// The endpoint works on a transfer.
    pub open spec fn busy(self, addr: EndpointAddress) -> bool {
        token_active(self.dtd_token) || bitmap_holds(self.endptstatus, addr)
    }

    /// Why a transfer of an aligned buffer cannot start, if it cannot.
    pub open spec fn refusal(self, addr: EndpointAddress) -> Option<UsbError> {
        if self.busy(addr) {
            Some(UsbError::EndpointBusy(addr))
        } else if !self.cache_ready {
            Some(UsbError::Init(UsbInitError::DmaAlignment(AlignmentError::Unavailable)))
        } else {
            None
        }
    }
}

impl Transfers {
    /// The queue head of an endpoint set up without a transfer.
    pub open spec fn configured(self, addr: EndpointAddress, max_packet_size: u16) -> Self {
        self.with_head(
            addr,
            (EndpointQueueHead {
                capabilities: capabilities_of(
                    max_packet_size,
                    addr == EndpointAddress::of(0, Direction::Out),
                    true,
                ),
                ..self.queue_heads[addr.slot()]
            }).idle(),
        )
    }

    /// The endpoint with a transfer of `len` bytes.
    pub open spec fn primed(
        self,
        layout: DmaLayout,
        addr: EndpointAddress,
        buf_addr: u32,
        len: usize,
    ) -> Self {
        self.with_requested(addr, len).with_dtd(
            addr,
            TransferDescriptor::transfer(buf_addr, len, true),
        ).with_head(addr, self.queue_heads[addr.slot()].attached(layout.dtd_addr(addr)))
    }

    /// Every endpoint as a bus reset leaves it, with control packets of `size` bytes.
    pub open spec fn after_bus_reset(size: u16) -> Self {
        Self::idle().configured(EndpointAddress::of(0, Direction::Out), size).configured(
            EndpointAddress::of(0, Direction::In),
            size,
        )
    }
}

/// The accesses that follow a setup packet of an endpoint that was read.
pub open spec fn setup_done_ops(ep_index: int) -> Seq<UsbOp> {
    seq![
        UsbOp::WriteEndptSetupStat(
            EndpointSetupStatus { raw: (1u16 << (ep_index as u16)) as u32 },
        ),
        UsbOp::ModifyUsbCmd(CommandUpdate::SetupTripwire(false)),
    ]
}

/// The accesses that enable or disable an endpoint.
pub open spec fn configure_ops(
    layout: DmaLayout,
    addr: EndpointAddress,
    ep_type: EndpointType,
    enable: bool,
) -> Seq<UsbOp> {
    if enable {
        seq![
            UsbOp::Clean { addr: layout.queue_head_addr(addr), len: QUEUE_HEAD_SIZE },
            ctrl_op(addr, ep_type, true),
        ]
    } else {
        seq![ctrl_op(addr, ep_type, false), UsbOp::Flush(addr)]
    }
}

/// The accesses that stall an endpoint or end its stall.
pub open spec fn stall_ops(addr: EndpointAddress, stalled: bool) -> Seq<UsbOp> {
    seq![
        UsbOp::ModifyEndptCtrl {
            index: addr.number() as usize,
            update: EndptCtrlUpdate::Stall { way: addr.way(), stalled },
        },
        UsbOp::Wake(Waker::Control),
        UsbOp::Wake(Waker::DataIn),
        UsbOp::Wake(Waker::DataOut),
    ]
}

/// One attempt to link the descriptor of an endpoint to its queue head.
pub open spec fn link_ops(layout: DmaLayout, addr: EndpointAddress) -> Seq<UsbOp> {
    seq![
        UsbOp::ModifyUsbCmd(CommandUpdate::AddDtdTripwire(true)),
        UsbOp::AttachDescriptor(addr),
        UsbOp::Clean { addr: layout.queue_head_addr(addr), len: QUEUE_HEAD_SIZE },
    ]
}

/// The accesses that hand a described transfer to the controller.
pub open spec fn prime_ops(layout: DmaLayout, addr: EndpointAddress) -> Seq<UsbOp> {
    link_ops(layout, addr) + seq![
        UsbOp::AwaitLink(addr),
        UsbOp::Clean { addr: layout.dtd_addr(addr), len: TRANSFER_DESCRIPTOR_SIZE },
        UsbOp::Clean { addr: layout.queue_head_addr(addr), len: QUEUE_HEAD_SIZE },
        UsbOp::WriteEndptPrime(bitmap_of(addr)),
    ]
}

/// The accesses that follow a bus reset.
pub open spec fn bus_reset_ops(layout: DmaLayout) -> Seq<UsbOp> {
    let ep0_out = EndpointAddress::of(0, Direction::Out);
    let ep0_in = EndpointAddress::of(0, Direction::In);
    seq![UsbOp::WriteEndpointListAddr(list_address(layout.queue_heads))] + configure_ops(
        layout,
        ep0_out,
        EndpointType::Control,
        true,
    ) + configure_ops(layout, ep0_in, EndpointType::Control, true) + stall_ops(ep0_out, false)
        + stall_ops(ep0_in, false) + seq![
        UsbOp::Clean { addr: layout.queue_heads, len: QUEUE_HEAD_LIST_SIZE },
    ]
}

/// The accesses that follow the flushes of an aborted control transfer.
pub open spec fn abort_ops(layout: DmaLayout) -> Seq<UsbOp> {
    let ep0_out = EndpointAddress::of(0, Direction::Out);
    let ep0_in = EndpointAddress::of(0, Direction::In);
    stall_ops(ep0_out, false) + stall_ops(ep0_in, false) + seq![
        UsbOp::Clean { addr: layout.queue_head_addr(ep0_out), len: QUEUE_HEAD_SIZE },
        UsbOp::Clean { addr: layout.queue_head_addr(ep0_in), len: QUEUE_HEAD_SIZE },
        UsbOp::Clean { addr: layout.dtd_addr(ep0_out), len: TRANSFER_DESCRIPTOR_SIZE },
        UsbOp::Clean { addr: layout.dtd_addr(ep0_in), len: TRANSFER_DESCRIPTOR_SIZE },
    ]
}

/// Why a transfer of `len` bytes of a buffer of `buffer_len` bytes is refused, if it is.
pub open spec fn transfer_error(
    addr: EndpointAddress,
    way: Direction,
    buffer_len: usize,
    len: usize,
    seen: EndpointSeen,
    buffer: u32,
) -> Option<UsbError> {
    if !addr.is_real() {
        Some(UsbError::InvalidEndpoint(addr.number() as usize))
    } else if len > buffer_len {
        Some(UsbError::BufferTooSmall { requested: len, buffer_len })
    } else if len > MAX_DTD_TRANSFER_BYTES {
        Some(UsbError::TransferTooLarge(len))
    } else if addr.way() != way {
        Some(UsbError::InvalidEndpoint(addr.number() as usize))
    } else if seen.busy(addr) {
        Some(UsbError::EndpointBusy(addr))
    } else {
        match cache::range_error(seen.cache_ready, buffer, buffer_len) {
            Some(e) => Some(UsbError::Init(UsbInitError::DmaAlignment(e))),
            None => None,
        }
    }
}

/// Persistent device-mode view which couples one controller with its DMA-visible resources.
pub struct UsbDevice {
    pub controller: UsbController,
    pub resources: UsbResources,
    pub runtime: ControllerRuntime,
    pub layout: DmaLayout,
}

impl UsbDevice {
    /// The DMA memory is usable.
    pub open spec fn wf(self) -> bool {
        self.layout.wf()
    }

    /// Everything but the transfers and the runtime is that of `other`.
    pub open spec fn same_frame(&self, other: &Self) -> bool {
        self.controller == other.controller && self.layout == other.layout
            && self.resources.same_buffers(&other.resources)
    }

    /// Nothing differs from `other`.
    pub open spec fn same(&self, other: &Self) -> bool {
        self.same_frame(other) && self.resources@ == other.resources@ && self.runtime
            == other.runtime
    }

    pub fn new(
        controller: UsbController,
        resources: UsbResources,
        runtime: ControllerRuntime,
        layout: DmaLayout,
    ) -> (r: Self)
        ensures
            r == (UsbDevice { controller, resources, runtime, layout }),
    {
        UsbDevice { controller, resources, runtime, layout }
    }

    pub fn id(&self) -> (r: UsbId)
        ensures
            r == self.controller.id,
    {
        self.controller.id()
    }

    /// What starting device mode does.
    pub open spec fn starts_device_mode(
        &self,
        after: &Self,
        regs: InitRegisters,
        control_max_packet_size: u16,
        r: (Vec<UsbOp>, Result<(), UsbError>),
    ) -> bool {
        if bits::bit(regs.usbcmd.raw, 1) {
            &&& r.1 == Err::<(), UsbError>(UsbError::Init(UsbInitError::ControllerResetTimedOut))
            &&& r.0@ == Seq::<UsbOp>::empty()
            &&& after.same(self)
        } else if self.layout.queue_heads % QUEUE_HEAD_LIST_ALIGN != 0 {
            &&& r.1 == Err::<(), UsbError>(UsbError::Init(UsbInitError::QueueHeadAlignment))
            &&& r.0@ == device_mode_ops(regs)
            &&& after.resources@ == Transfers::idle()
            &&& after.runtime == self.runtime.device_mode(regs.otgsc_running).without_endpoints()
        } else {
            &&& r.1 == Ok::<(), UsbError>(())
            &&& r.0@ == device_mode_ops(regs) + bus_reset_ops(self.layout)
            &&& after.resources@ == Transfers::after_bus_reset(control_max_packet_size)
            &&& after.runtime == self.runtime.device_mode(regs.otgsc_running).ep0_ready()
        }
    }

    /// Starts device mode on a controller that was reset, with control packets of the
    /// given size. The accesses are to be performed even where an error comes with them.
    pub fn start_device_mode_with(
        &mut self,
        regs: InitRegisters,
        control_max_packet_size: u16,
    ) -> (r: (Vec<UsbOp>, Result<(), UsbError>))
        requires
            old(self).wf(),
        ensures
            final(self).same_frame(old(self)),
            old(self).starts_device_mode(final(self), regs, control_max_packet_size, r),
    {
        let mut ops = match self.controller.init_device_mode(&mut self.runtime, regs) {
            Ok(ops) => ops,
            Err(e) => {
                let ops: Vec<UsbOp> = Vec::new();
                assert(ops@ =~= Seq::<UsbOp>::empty());
                return (ops, Err(UsbError::from(e)));
            },
        };
        let mut reset = match self.bus_reset_with(control_max_packet_size) {
            Ok(ops) => ops,
            Err(e) => return (ops, Err(e)),
        };
        ops.append(&mut reset);
        assert(ops@ =~= device_mode_ops(regs) + bus_reset_ops(old(self).layout));
        (ops, Ok(()))
    }

    /// [`UsbDevice::start_device_mode_with`] for control packets of 64 bytes.
    pub fn start_device_mode(&mut self, regs: InitRegisters) -> (r: (
        Vec<UsbOp>,
        Result<(), UsbError>,
    ))
        requires
            old(self).wf(),
        ensures
            final(self).same_frame(old(self)),
            old(self).starts_device_mode(final(self), regs, 64, r),
    {
        self.start_device_mode_with(regs, 64)
    }

    /// What bringing the endpoints into the state after a bus reset does.
    pub open spec fn resets(
        &self,
        after: &Self,
        control_max_packet_size: u16,
        r: Result<Vec<UsbOp>, UsbError>,
    ) -> bool {
        if self.layout.queue_heads % QUEUE_HEAD_LIST_ALIGN != 0 {
            &&& r == Err::<Vec<UsbOp>, UsbError>(UsbError::Init(UsbInitError::QueueHeadAlignment))
            &&& after.resources@ == Transfers::idle()
            &&& after.runtime == self.runtime.without_endpoints()
        } else {
            &&& r is Ok
            &&& r->Ok_0@ == bus_reset_ops(self.layout)
            &&& after.resources@ == Transfers::after_bus_reset(control_max_packet_size)
            &&& after.runtime == self.runtime.ep0_ready()
        }
    }

    /// Stops the controller and forgets every transfer.
    pub fn disable(&mut self, otgsc: OtgSc) -> (ops: Vec<UsbOp>)
        ensures
            final(self).same_frame(old(self)),
            ops@ == disable_ops(otgsc),
            final(self).resources@ == Transfers::idle(),
            final(self).runtime == (ControllerRuntime {
                suspended: false,
                power_present: false,
                ..old(self).runtime.without_endpoints()
            }),
    {
        let ops = self.controller.disable(&mut self.runtime, otgsc);
        self.resources.reset_state();
        ops
    }

    /// Services an interrupt.
    pub fn poll(&mut self, regs: InterruptRegisters) -> (r: (InterruptResult, Vec<UsbOp>))
        ensures
            final(self).same_frame(old(self)),
            final(self).resources@ == old(self).resources@,
            r.0 == (InterruptResult {
                resume: old(self).runtime.resumes(regs),
                ..interrupt_result(regs)
            }),
            r.1@ == service_ops(regs),
            final(self).runtime == old(self).runtime.serviced(regs),
    {
        self.controller.poll_interrupt_result(&mut self.runtime, regs)
    }

    /// Brings the endpoints into the state that follows a bus reset: only the
    /// control endpoint is enabled, with packets of the given size.
    pub fn bus_reset_with(&mut self, control_max_packet_size: u16) -> (r: Result<Vec<UsbOp>, UsbError>)
        requires
            old(self).wf(),
        ensures
            final(self).same_frame(old(self)),
            old(self).resets(final(self), control_max_packet_size, r),
    {
        self.resources.reset_state();
        self.runtime.clear_endpoint_state();
        if self.layout.queue_heads % QUEUE_HEAD_LIST_ALIGN != 0 {
            return Err(UsbError::from(UsbInitError::QueueHeadAlignment));
        }
        let ep0_out = ep0_addr(Direction::Out);
        let ep0_in = ep0_addr(Direction::In);
        let mut ops: Vec<UsbOp> = vec![
            UsbOp::WriteEndpointListAddr(queue_head_list_address(self.layout.queue_heads)),
        ];
        let mut more = match self.configure_endpoint(
            ep0_out,
            EndpointType::Control,
            control_max_packet_size,
            true,
        ) {
            Ok(more) => more,
            Err(e) => return Err(e),
        };
        ops.append(&mut more);
        let mut more = match self.configure_endpoint(
            ep0_in,
            EndpointType::Control,
            control_max_packet_size,
            true,
        ) {
            Ok(more) => more,
            Err(e) => return Err(e),
        };
        ops.append(&mut more);
        let mut more = match self.set_stalled(ep0_out, false) {
            Ok(more) => more,
            Err(e) => return Err(e),
        };
        ops.append(&mut more);
        let mut more = match self.set_stalled(ep0_in, false) {
            Ok(more) => more,
            Err(e) => return Err(e),
        };
        ops.append(&mut more);
        ops.push(UsbOp::Clean { addr: self.layout.queue_heads, len: QUEUE_HEAD_LIST_SIZE });
        assert(ops@ =~= bus_reset_ops(old(self).layout));
        Ok(ops)
    }

    /// [`UsbDevice::bus_reset_with`] for control packets of 64 bytes.
    pub fn on_bus_reset(&mut self) -> (r: Result<Vec<UsbOp>, UsbError>)
        requires
            old(self).wf(),
        ensures
            final(self).same_frame(old(self)),
            old(self).resets(final(self), 64, r),
    {
        self.bus_reset_with(64)
    }

    pub fn reset_endpoint_state(&mut self) -> (r: Result<Vec<UsbOp>, UsbError>)
        requires
            old(self).wf(),
        ensures
            final(self).same_frame(old(self)),
            old(self).resets(final(self), 64, r),
    {
        self.on_bus_reset()
    }

    /// Enables or disables an endpoint. The flush that ends disabling can still
    /// fail, see [`FlushWait`].
    pub fn configure_endpoint(
        &mut self,
        addr: EndpointAddress,
        ep_type: EndpointType,
        max_packet_size: u16,
        enable: bool,
    ) -> (r: Result<Vec<UsbOp>, UsbError>)
        requires
            old(self).wf(),
        ensures
            final(self).same_frame(old(self)),
            if !addr.is_real() {
                &&& r == Err::<Vec<UsbOp>, UsbError>(
                    UsbError::InvalidEndpoint(addr.number() as usize),
                )
                &&& final(self).same(old(self))
            } else {
                &&& r is Ok
                &&& r->Ok_0@ == configure_ops(old(self).layout, addr, ep_type, enable)
                &&& final(self).resources@ == (if enable {
                    old(self).resources@.configured(addr, max_packet_size)
                } else {
                    old(self).resources@.with_requested(addr, 0)
                })
                &&& final(self).runtime == old(self).runtime.enabling(addr, enable)
            },
    {
        match validate_endpoint(addr) {
            Ok(()) => {},
            Err(e) => return Err(e),
        }
        let mut ops: Vec<UsbOp> = Vec::new();
        if enable {
            let mut head = self.resources.queue_head(addr);
            let setup = addr.index() == 0 && match addr.direction() {
                Direction::Out => true,
                Direction::In => false,
            };
            head.configure(max_packet_size, setup, true);
            head.reset_overlay();
            self.resources.set_queue_head(addr, head);
            ops.push(self.clean_queue_head(addr));
        } else {
            self.resources.set_requested(addr, 0);
        }
        if let Some(op) = self.controller.configure_endpoint(
            &mut self.runtime,
            addr,
            ep_type,
            enable,
        ) {
            ops.push(op);
        }
        if !enable {
            ops.push(UsbOp::Flush(addr));
        }
        assert(ops@ =~= configure_ops(old(self).layout, addr, ep_type, enable));
        Ok(ops)
    }

    pub fn set_stalled(&mut self, addr: EndpointAddress, stalled: bool) -> (r: Result<
        Vec<UsbOp>,
        UsbError,
    >)
        ensures
            final(self).same_frame(old(self)),
            final(self).resources@ == old(self).resources@,
            if !addr.is_real() {
                &&& r == Err::<Vec<UsbOp>, UsbError>(
                    UsbError::InvalidEndpoint(addr.number() as usize),
                )
                &&& final(self).runtime == old(self).runtime
            } else {
                &&& r is Ok
                &&& r->Ok_0@ == stall_ops(addr, stalled)
                &&& final(self).runtime == old(self).runtime.stalling(addr, stalled)
            },
    {
        match validate_endpoint(addr) {
            Ok(()) => {},
            Err(e) => return Err(e),
        }
        self.runtime.set_stalled(addr, stalled);
        let ops: Vec<UsbOp> = vec![
            UsbOp::ModifyEndptCtrl {
                index: addr.index(),
                update: EndptCtrlUpdate::Stall { way: addr.direction(), stalled },
            },
            UsbOp::Wake(Waker::Control),
            UsbOp::Wake(Waker::DataIn),
            UsbOp::Wake(Waker::DataOut),
        ];
        assert(ops@ =~= stall_ops(addr, stalled));
        Ok(ops)
    }

    /// Flushes an endpoint; the flush can fail, see [`FlushWait`].
    pub fn flush_endpoint(&self, addr: EndpointAddress) -> (r: Result<UsbOp, UsbError>)
        ensures
            r == (if addr.is_real() {
                Ok(UsbOp::Flush(addr))
            } else {
                Err(UsbError::InvalidEndpoint(addr.number() as usize))
            }),
    {
        match validate_endpoint(addr) {
            Ok(()) => Ok(UsbOp::Flush(addr)),
            Err(e) => Err(e),
        }
    }

    /// Starts receiving `len` bytes into the buffer of `buffer_len` bytes at `buffer`.
    pub fn prime_out(
        &mut self,
        addr: EndpointAddress,
        buffer: u32,
        buffer_len: usize,
        len: usize,
        seen: EndpointSeen,
    ) -> (r: Result<Vec<UsbOp>, UsbError>)
        requires
            old(self).wf(),
        ensures
            final(self).same_frame(old(self)),
            final(self).runtime == old(self).runtime,
            match transfer_error(addr, Direction::Out, buffer_len, len, seen, buffer) {
                Some(e) => r == Err::<Vec<UsbOp>, UsbError>(e) && final(self).same(old(self)),
                None => {
                    &&& r is Ok
                    &&& r->Ok_0@ == seq![UsbOp::Invalidate { addr: buffer, len: buffer_len }]
                        + prime_ops(old(self).layout, addr)
                    &&& final(self).resources@ == old(self).resources@.primed(
                        old(self).layout,
                        addr,
                        buffer,
                        len,
                    )
                },
            },
    {
        match self.check_transfer(addr, Direction::Out, buffer_len, len, seen) {
            Ok(()) => {},
            Err(e) => return Err(e),
        }
        let prepare = match self.controller.prepare_out_buffer(
            seen.cache_ready,
            buffer,
            buffer_len,
        ) {
            Ok(op) => op,
            Err(e) => return Err(UsbError::from(e)),
        };
        let mut ops: Vec<UsbOp> = vec![prepare];
        self.resources.set_requested(addr, len);
        let mut prime = self.prime_transfer_inner(addr, buffer, len);
        ops.append(&mut prime);
        assert(ops@ =~= seq![UsbOp::Invalidate { addr: buffer, len: buffer_len }] + prime_ops(
            old(self).layout,
            addr,
        ));
        Ok(ops)
    }

    /// Starts sending `len` bytes of the buffer of `buffer_len` bytes at `buffer`.
    pub fn prime_in(
        &mut self,
        addr: EndpointAddress,
        buffer: u32,
        buffer_len: usize,
        len: usize,
        seen: EndpointSeen,
    ) -> (r: Result<Vec<UsbOp>, UsbError>)
        requires
            old(self).wf(),
        ensures
            final(self).same_frame(old(self)),
            final(self).runtime == old(self).runtime,
            match transfer_error(addr, Direction::In, buffer_len, len, seen, buffer) {
                Some(e) => r == Err::<Vec<UsbOp>, UsbError>(e) && final(self).same(old(self)),
                None => {
                    &&& r is Ok
                    &&& r->Ok_0@ == seq![UsbOp::Clean { addr: buffer, len: buffer_len }]
                        + prime_ops(old(self).layout, addr)
                    &&& final(self).resources@ == old(self).resources@.primed(
                        old(self).layout,
                        addr,
                        buffer,
                        len,
                    )
                },
            },
    {
        match self.check_transfer(addr, Direction::In, buffer_len, len, seen) {
            Ok(()) => {},
            Err(e) => return Err(e),
        }
        let prepare = match self.controller.prepare_in_buffer(
            seen.cache_ready,
            buffer,
            buffer_len,
        ) {
            Ok(op) => op,
            Err(e) => return Err(UsbError::from(e)),
        };
        let mut ops: Vec<UsbOp> = vec![prepare];
        self.resources.set_requested(addr, len);
        let mut prime = self.prime_transfer_inner(addr, buffer, len);
        ops.append(&mut prime);
        assert(ops@ =~= seq![UsbOp::Clean { addr: buffer, len: buffer_len }] + prime_ops(
            old(self).layout,
            addr,
        ));
        Ok(ops)
    }

    /// Takes the report of a transfer that [`UsbController::poll_transfer_complete`]
    /// found done, given the token of its descriptor in memory.
    pub fn take_transfer_complete(&mut self, addr: EndpointAddress, done: bool, token: u32) -> (r:
        Result<Option<TransferReport>, UsbError>)
        ensures
            final(self).same_frame(old(self)),
            final(self).runtime == old(self).runtime,
            if !addr.is_real() {
                &&& r == Err::<Option<TransferReport>, UsbError>(
                    UsbError::InvalidEndpoint(addr.number() as usize),
                )
                &&& final(self).same(old(self))
            } else if !done {
                r == Ok::<Option<TransferReport>, UsbError>(None) && final(self).same(old(self))
            } else {
                let requested = old(self).resources@.requested[addr.slot()] as usize;
                &&& final(self).resources@ == old(self).resources@.with_requested(addr, 0)
                &&& r == (if token_failed(token) {
                    Err::<Option<TransferReport>, UsbError>(UsbError::TransferFailed { addr, token })
                } else {
                    Ok(
                        Some(
                            TransferReport {
                                requested_bytes: requested,
                                actual_bytes: bytes_done(requested, token) as usize,
                                token,
                            },
                        ),
                    )
                })
            },
    {
        match validate_endpoint(addr) {
            Ok(()) => {},
            Err(e) => return Err(e),
        }
        if !done {
            return Ok(None);
        }
        let requested: usize = self.resources.requested(addr);
        let mut dtd = self.resources.dtd(addr);
        dtd.token = token;
        let report = TransferReport {
            requested_bytes: requested,
            actual_bytes: dtd.actual_bytes_transferred(requested),
            token,
        };
        self.resources.set_requested(addr, 0);
        if report.has_error() {
            return Err(UsbError::TransferFailed { addr, token });
        }
        Ok(Some(report))
    }

    /// Makes what the controller wrote to a buffer visible.
    pub fn finish_out(&self, cache_ready: bool, buffer: u32, buffer_len: usize) -> (r: Result<
        UsbOp,
        UsbError,
    >)
        ensures
            r == match cache::range_error(cache_ready, buffer, buffer_len) {
                Some(e) => Err(UsbError::Init(UsbInitError::DmaAlignment(e))),
                None => Ok(UsbOp::Invalidate { addr: buffer, len: buffer_len }),
            },
    {
        match self.controller.finish_out_buffer(cache_ready, buffer, buffer_len) {
            Ok(op) => Ok(op),
            Err(e) => Err(UsbError::from(e)),
        }
    }

    /// Puts data into the control buffer and starts sending it. Data beyond the
    /// requested length or the buffer is left out. Returns the length that is sent.
    pub fn prime_ep0_in(&mut self, data: &[u8], requested_len: usize, seen: EndpointSeen) -> (r:
        Result<(usize, Vec<UsbOp>), UsbError>)
        requires
            old(self).wf(),
        ensures
            final(self).controller == old(self).controller,
            final(self).layout == old(self).layout,
            final(self).runtime == old(self).runtime,
            final(self).resources.ep0_out_buffer@ == old(self).resources.ep0_out_buffer@,
            ({
                let len = control_len(data@.len(), requested_len);
                let ep0_in = EndpointAddress::of(0, Direction::In);
                &&& final(self).resources.ep0_in_buffer@ == data@.take(len)
                    + old(self).resources.ep0_in_buffer@.skip(len)
                &&& match seen.refusal(ep0_in) {
                    Some(e) => {
                        &&& r == Err::<(usize, Vec<UsbOp>), UsbError>(e)
                        &&& final(self).resources@ == old(self).resources@
                    },
                    None => {
                        &&& r is Ok
                        &&& r->Ok_0.0 == len
                        &&& r->Ok_0.1@ == ep0_ops(old(self).layout, Direction::In)
                        &&& final(self).resources@ == old(self).resources@.primed(
                            old(self).layout,
                            ep0_in,
                            old(self).layout.ep0_in_buffer,
                            len as usize,
                        )
                    },
                }
            }),
    {
        let mut len: usize = if data.len() < requested_len {
            data.len()
        } else {
            requested_len
        };
        if len > CONTROL_BUFFER_SIZE {
            len = CONTROL_BUFFER_SIZE;
        }
        let ghost before = self.resources.ep0_in_buffer@;
        let mut i: usize = 0;
        while i < len
            invariant
                i <= len <= data@.len(),
                len <= CONTROL_BUFFER_SIZE,
                before.len() == CONTROL_BUFFER_SIZE,
                self.resources.ep0_in_buffer@ == data@.take(i as int) + before.skip(i as int),
                self.resources.ep0_out_buffer@ == old(self).resources.ep0_out_buffer@,
                self.resources@ == old(self).resources@,
                self.runtime == old(self).runtime,
                self.controller == old(self).controller,
                self.layout == old(self).layout,
            decreases len - i,
        {
            self.resources.ep0_in_buffer.0[i] = data[i];
            assert(self.resources.ep0_in_buffer@ =~= data@.take(i + 1) + before.skip(i + 1));
            i = i + 1;
        }
        match self.start_ep0(Direction::In, len, seen) {
            Ok(ops) => Ok((len, ops)),
            Err(e) => Err(e),
        }
    }

    /// Starts sending the zero-length packet of a status stage.
    pub fn prime_ep0_in_status(&mut self, seen: EndpointSeen) -> (r: Result<Vec<UsbOp>, UsbError>)
        requires
            old(self).wf(),
        ensures
            final(self).same_frame(old(self)),
            final(self).runtime == old(self).runtime,
            old(self).starts_ep0(final(self), Direction::In, 0, seen, r),
    {
        self.start_ep0(Direction::In, 0, seen)
    }

    /// Starts receiving the zero-length packet of a status stage.
    pub fn prime_ep0_out_status(&mut self, seen: EndpointSeen) -> (r: Result<Vec<UsbOp>, UsbError>)
        requires
            old(self).wf(),
        ensures
            final(self).same_frame(old(self)),
            final(self).runtime == old(self).runtime,
            old(self).starts_ep0(final(self), Direction::Out, 0, seen, r),
    {
        self.start_ep0(Direction::Out, 0, seen)
    }

    /// Starts receiving control data. Returns the length that is received at most.
    pub fn prime_ep0_out_data(&mut self, expected_len: usize, seen: EndpointSeen) -> (r: Result<
        (usize, Vec<UsbOp>),
        UsbError,
    >)
        requires
            old(self).wf(),
        ensures
            final(self).same_frame(old(self)),
            final(self).runtime == old(self).runtime,
            ({
                let len = if expected_len < CONTROL_BUFFER_SIZE {
                    expected_len
                } else {
                    CONTROL_BUFFER_SIZE
                };
                match r {
                    Ok((n, ops)) => n == len && old(self).starts_ep0(
                        final(self),
                        Direction::Out,
                        len,
                        seen,
                        Ok(ops),
                    ),
                    Err(e) => old(self).starts_ep0(
                        final(self),
                        Direction::Out,
                        len,
                        seen,
                        Err(e),
                    ),
                }
            }),
    {
        let len: usize = if expected_len < CONTROL_BUFFER_SIZE {
            expected_len
        } else {
            CONTROL_BUFFER_SIZE
        };
        match self.start_ep0(Direction::Out, len, seen) {
            Ok(ops) => Ok((len, ops)),
            Err(e) => Err(e),
        }
    }

    /// Copies what a control transfer received into `dst`. The control buffer has
    /// been made visible with [`UsbDevice::finish_out`]; `received` is what it holds.
    pub fn take_ep0_out_data(
        &self,
        report: Option<TransferReport>,
        received: &[u8],
        dst: &mut Vec<u8>,
    ) -> (r: Result<Option<usize>, UsbError>)
        requires
            report is Some ==> report->0.actual_bytes <= received@.len(),
        ensures
            match report {
                None => r == Ok::<Option<usize>, UsbError>(None) && final(dst)@ == old(dst)@,
                Some(report) => if report.actual_bytes > old(dst)@.len() {
                    &&& r == Err::<Option<usize>, UsbError>(
                        UsbError::BufferTooSmall {
                            requested: report.actual_bytes,
                            buffer_len: old(dst)@.len() as usize,
                        },
                    )
                    &&& final(dst)@ == old(dst)@
                } else {
                    &&& r == Ok::<Option<usize>, UsbError>(Some(report.actual_bytes))
                    &&& final(dst)@ == received@.take(report.actual_bytes as int) + old(dst)@.skip(
                        report.actual_bytes as int,
                    )
                },
            },
    {
        let report = match report {
            Some(report) => report,
            None => return Ok(None),
        };
        if report.actual_bytes > dst.len() {
            return Err(
                UsbError::BufferTooSmall { requested: report.actual_bytes, buffer_len: dst.len() },
            );
        }
        copy_front(dst, received, report.actual_bytes);
        Ok(Some(report.actual_bytes))
    }

    /// Stalls both directions of the control endpoint.
    pub fn stall_ep0(&mut self) -> (r: Result<Vec<UsbOp>, UsbError>)
        ensures
            final(self).same_frame(old(self)),
            final(self).resources@ == old(self).resources@,
            r is Ok,
            r->Ok_0@ == stall_ops(EndpointAddress::of(0, Direction::Out), true) + stall_ops(
                EndpointAddress::of(0, Direction::In),
                true,
            ),
            final(self).runtime == old(self).runtime.stalling(
                EndpointAddress::of(0, Direction::Out),
                true,
            ).stalling(EndpointAddress::of(0, Direction::In), true),
    {
        let mut ops = match self.set_stalled(ep0_addr(Direction::Out), true) {
            Ok(ops) => ops,
            Err(e) => return Err(e),
        };
        let mut more = match self.set_stalled(ep0_addr(Direction::In), true) {
            Ok(ops) => ops,
            Err(e) => return Err(e),
        };
        ops.append(&mut more);
        Ok(ops)
    }

    /// Drops the control transfer that a new setup packet has overtaken. Both
    /// directions have been flushed before, OUT first; a flush that timed out ends it.
    pub fn abort_ep0_state(&mut self, out_flushed: bool, in_flushed: bool) -> (r: Result<
        Vec<UsbOp>,
        UsbError,
    >)
        requires
            old(self).wf(),
        ensures
            final(self).same_frame(old(self)),
            if !out_flushed {
                &&& r == Err::<Vec<UsbOp>, UsbError>(
                    UsbError::EndpointFlushTimedOut(EndpointAddress::of(0, Direction::Out)),
                )
                &&& final(self).same(old(self))
            } else if !in_flushed {
                &&& r == Err::<Vec<UsbOp>, UsbError>(
                    UsbError::EndpointFlushTimedOut(EndpointAddress::of(0, Direction::In)),
                )
                &&& final(self).same(old(self))
            } else {
                &&& r is Ok
                &&& r->Ok_0@ == abort_ops(old(self).layout)
                &&& final(self).resources@ == old(self).resources@.cleared_ep0()
                &&& final(self).runtime == old(self).runtime.ep0_aborted()
            },
    {
        let ep0_out = ep0_addr(Direction::Out);
        let ep0_in = ep0_addr(Direction::In);
        if !out_flushed {
            return Err(UsbError::EndpointFlushTimedOut(ep0_out));
        }
        if !in_flushed {
            return Err(UsbError::EndpointFlushTimedOut(ep0_in));
        }
        self.resources.clear_ep0_transfer_state();
        self.runtime.clear_completed(ep0_out);
        self.runtime.clear_completed(ep0_in);
        let mut ops = match self.set_stalled(ep0_out, false) {
            Ok(ops) => ops,
            Err(e) => return Err(e),
        };
        let mut more = match self.set_stalled(ep0_in, false) {
            Ok(ops) => ops,
            Err(e) => return Err(e),
        };
        ops.append(&mut more);
        ops.push(self.clean_queue_head(ep0_out));
        ops.push(self.clean_queue_head(ep0_in));
        ops.push(self.clean_dtd(ep0_out));
        ops.push(self.clean_dtd(ep0_in));
        assert(ops@ =~= abort_ops(old(self).layout));
        Ok(ops)
    }

    /// Stages the device address for the end of the status stage.
    pub fn arm_address_after_status(&self, addr: u8) -> (op: UsbOp)
        requires
            addr < 128,
        ensures
            op == UsbOp::WriteDeviceAddr(
                DeviceAddress {
                    raw: bits::set_bit(bits::set_field(0, 25, 7, addr as u32), 24, true),
                },
            ),
    {
        UsbOp::WriteDeviceAddr(staged_device_address(addr))
    }

    /// What starting a control transfer of `len` bytes does.
    pub open spec fn starts_ep0(
        &self,
        after: &Self,
        way: Direction,
        len: usize,
        seen: EndpointSeen,
        r: Result<Vec<UsbOp>, UsbError>,
    ) -> bool {
        let addr = EndpointAddress::of(0, way);
        match seen.refusal(addr) {
            Some(e) => {
                &&& r == Err::<Vec<UsbOp>, UsbError>(e)
                &&& after.resources@ == self.resources@
            },
            None => {
                &&& r is Ok
                &&& r->Ok_0@ == ep0_ops(self.layout, way)
                &&& after.resources@ == self.resources@.primed(
                    self.layout,
                    addr,
                    self.layout.ep0_buffer(way),
                    len,
                )
            },
        }
    }

    fn start_ep0(&mut self, way: Direction, len: usize, seen: EndpointSeen) -> (r: Result<
        Vec<UsbOp>,
        UsbError,
    >)
        requires
            old(self).wf(),
            len <= CONTROL_BUFFER_SIZE,
        ensures
            final(self).same_frame(old(self)),
            final(self).runtime == old(self).runtime,
            old(self).starts_ep0(final(self), way, len, seen, r),
    {
        let addr = ep0_addr(way);
        match self.ensure_endpoint_idle(addr, seen) {
            Ok(()) => {},
            Err(e) => return Err(e),
        }
        let buffer: u32 = self.layout.ep0_buffer_address(way);
        let prepared = match way {
            Direction::Out => self.controller.prepare_out_buffer(
                seen.cache_ready,
                buffer,
                CONTROL_BUFFER_SIZE,
            ),
            Direction::In => self.controller.prepare_in_buffer(
                seen.cache_ready,
                buffer,
                CONTROL_BUFFER_SIZE,
            ),
        };
        let prepare = match prepared {
            Ok(op) => op,
            Err(e) => return Err(UsbError::from(e)),
        };
        let mut ops: Vec<UsbOp> = vec![prepare];
        self.resources.set_requested(addr, len);
        let mut prime = self.prime_transfer_inner(addr, buffer, len);
        ops.append(&mut prime);
        assert(ops@ =~= ep0_ops(old(self).layout, way));
        Ok(ops)
    }

    fn check_transfer(
        &self,
        addr: EndpointAddress,
        way: Direction,
        buffer_len: usize,
        len: usize,
        seen: EndpointSeen,
    ) -> (r: Result<(), UsbError>)
        ensures
            forall|buffer: u32|
                r is Err ==> #[trigger] transfer_error(addr, way, buffer_len, len, seen, buffer)
                    == Some(r->Err_0),
            r is Ok ==> addr.is_real() && len <= buffer_len && len <= MAX_DTD_TRANSFER_BYTES
                && addr.way() == way && !seen.busy(addr),
    {
        match validate_transfer(addr, buffer_len, len) {
            Ok(()) => {},
            Err(e) => return Err(e),
        }
        if addr.direction() != way {
            return Err(UsbError::InvalidEndpoint(addr.index()));
        }
        self.ensure_endpoint_idle(addr, seen)
    }

    fn ensure_endpoint_idle(&self, addr: EndpointAddress, seen: EndpointSeen) -> (r: Result<
        (),
        UsbError,
    >)
        requires
            addr.is_real(),
        ensures
            r == (if seen.busy(addr) {
                Err(UsbError::EndpointBusy(addr))
            } else {
                Ok(())
            }),
    {
        let mut dtd = TransferDescriptor::new();
        dtd.token = seen.dtd_token;
        if dtd.is_active() {
            return Err(UsbError::EndpointBusy(addr));
        }
        if endpoint_bitmap_is_set(seen.endptstatus, addr) {
            return Err(UsbError::EndpointBusy(addr));
        }
        Ok(())
    }

    fn prime_transfer_inner(&mut self, addr: EndpointAddress, buf_addr: u32, len: usize) -> (ops:
        Vec<UsbOp>)
        requires
            old(self).wf(),
            addr.is_real(),
            len <= MAX_DTD_TRANSFER_BYTES,
        ensures
            final(self).same_frame(old(self)),
            final(self).runtime == old(self).runtime,
            ops@ == prime_ops(old(self).layout, addr),
            final(self).resources@ == old(self).resources@.with_dtd(
                addr,
                TransferDescriptor::transfer(buf_addr, len, true),
            ).with_head(
                addr,
                old(self).resources@.queue_heads[addr.slot()].attached(
                    old(self).layout.dtd_addr(addr),
                ),
            ),
    {
        let mut dtd = self.resources.dtd(addr);
        dtd.configure(buf_addr, len, true);
        self.resources.set_dtd(addr, dtd);
        let mut head = self.resources.queue_head(addr);
        head.attach_dtd(self.layout.dtd_address(addr));
        self.resources.set_queue_head(addr, head);
        let mut ops = self.link_attempt(addr);
        ops.push(UsbOp::AwaitLink(addr));
        ops.push(self.clean_dtd(addr));
        ops.push(self.clean_queue_head(addr));
        ops.push(UsbOp::WriteEndptPrime(endpoint_bitmap_for(addr)));
        assert(ops@ =~= prime_ops(old(self).layout, addr));
        ops
    }

    fn link_attempt(&self, addr: EndpointAddress) -> (ops: Vec<UsbOp>)
        requires
            self.wf(),
            addr.is_real(),
        ensures
            ops@ == link_ops(self.layout, addr),
    {
        let ops: Vec<UsbOp> = vec![
            UsbOp::ModifyUsbCmd(CommandUpdate::AddDtdTripwire(true)),
            UsbOp::AttachDescriptor(addr),
            self.clean_queue_head(addr),
        ];
        assert(ops@ =~= link_ops(self.layout, addr));
        ops
    }

    /// What follows an attempt to link a descriptor, given the command register after it.
    ///
    /// The descriptor is linked where the tripwire still stands, and the tripwire is
    /// then cleared. Where the controller has cleared it, the attempt is repeated.
    pub fn link_step(&self, addr: EndpointAddress, cmd: UsbCommand) -> (r: (bool, Vec<UsbOp>))
        requires
            self.wf(),
            addr.is_real(),
        ensures
            r.0 == bits::bit(cmd.raw, 14),
            r.1@ == (if bits::bit(cmd.raw, 14) {
                seq![UsbOp::ModifyUsbCmd(CommandUpdate::AddDtdTripwire(false))]
            } else {
                link_ops(self.layout, addr)
            }),
    {
        if cmd.add_dtd_tripwire() {
            let ops: Vec<UsbOp> = vec![UsbOp::ModifyUsbCmd(CommandUpdate::AddDtdTripwire(false))];
            assert(ops@ =~= seq![UsbOp::ModifyUsbCmd(CommandUpdate::AddDtdTripwire(false))]);
            return (true, ops);
        }
        (false, self.link_attempt(addr))
    }

    fn clean_queue_head(&self, addr: EndpointAddress) -> (op: UsbOp)
        requires
            self.wf(),
            addr.is_real(),
        ensures
            op == (UsbOp::Clean {
                addr: self.layout.queue_head_addr(addr),
                len: QUEUE_HEAD_SIZE,
            }),
    {
        UsbOp::Clean { addr: self.layout.queue_head_address(addr), len: QUEUE_HEAD_SIZE }
    }

    fn clean_dtd(&self, addr: EndpointAddress) -> (op: UsbOp)
        requires
            self.wf(),
            addr.is_real(),
        ensures
            op == (UsbOp::Clean {
                addr: self.layout.dtd_addr(addr),
                len: TRANSFER_DESCRIPTOR_SIZE,
            }),
    {
        UsbOp::Clean { addr: self.layout.dtd_address(addr), len: TRANSFER_DESCRIPTOR_SIZE }
    }
}

/// The length of a control packet: what is there, what was asked for, what fits.
pub open spec fn control_len(available: nat, requested: usize) -> int {
    let n = if available < requested {
        available as int
    } else {
        requested as int
    };
    if n > CONTROL_BUFFER_SIZE {
        CONTROL_BUFFER_SIZE as int
    } else {
        n
    }
}

/// The accesses that start a control transfer.
pub open spec fn ep0_ops(layout: DmaLayout, way: Direction) -> Seq<UsbOp> {
    let addr = layout.ep0_buffer(way);
    seq![
        match way {
            Direction::Out => UsbOp::Invalidate { addr, len: CONTROL_BUFFER_SIZE },
            Direction::In => UsbOp::Clean { addr, len: CONTROL_BUFFER_SIZE },
        },
    ] + prime_ops(layout, EndpointAddress::of(0, way))
}

impl ControllerRuntime {
    /// Only the control endpoint enabled, and not stalled.
    pub open spec fn ep0_ready(self) -> Self {
        let ep0_out = EndpointAddress::of(0, Direction::Out);
        let ep0_in = EndpointAddress::of(0, Direction::In);
        self.without_endpoints().enabling(ep0_out, true).enabling(ep0_in, true).stalling(
            ep0_out,
            false,
        ).stalling(ep0_in, false)
    }

    /// The control endpoint without completions and not stalled.
    pub open spec fn ep0_aborted(self) -> Self {
        let ep0_out = EndpointAddress::of(0, Direction::Out);
        let ep0_in = EndpointAddress::of(0, Direction::In);
        self.taking(ep0_out).taking(ep0_in).stalling(ep0_out, false).stalling(ep0_in, false)
    }
}

pub fn validate_endpoint(addr: EndpointAddress) -> (r: Result<(), UsbError>)
    ensures
        r == (if addr.is_real() {
            Ok(())
        } else {
            Err(UsbError::InvalidEndpoint(addr.number() as usize))
        }),
{
    if addr.index() >= MAX_ENDPOINTS {
        return Err(UsbError::InvalidEndpoint(addr.index()));
    }
    Ok(())
}

pub fn validate_transfer(addr: EndpointAddress, buffer_len: usize, requested: usize) -> (r: Result<
    (),
    UsbError,
>)
    ensures
        r == (if !addr.is_real() {
            Err(UsbError::InvalidEndpoint(addr.number() as usize))
        } else if requested > buffer_len {
            Err(UsbError::BufferTooSmall { requested, buffer_len })
        } else if requested > MAX_DTD_TRANSFER_BYTES {
            Err(UsbError::TransferTooLarge(requested))
        } else {
            Ok(())
        }),
{
    match validate_endpoint(addr) {
        Ok(()) => {},
        Err(e) => return Err(e),
    }
    if requested > buffer_len {
        return Err(UsbError::BufferTooSmall { requested, buffer_len });
    }
    if requested > MAX_DTD_TRANSFER_BYTES {
        return Err(UsbError::TransferTooLarge(requested));
    }
    Ok(())
}

/// Copies the first `len` bytes of `src` to the front of `dst`.
pub fn copy_front(dst: &mut Vec<u8>, src: &[u8], len: usize)
    requires
        len <= src@.len(),
        len <= old(dst)@.len(),
    ensures
        final(dst)@ == src@.take(len as int) + old(dst)@.skip(len as int),
{
    let ghost before = dst@;
    let mut i: usize = 0;
    while i < len
        invariant
            i <= len <= src@.len(),
            len <= before.len(),
            dst@ == src@.take(i as int) + before.skip(i as int),
        decreases len - i,
    {
        dst.set(i, src[i]);
        assert(dst@ =~= src@.take(i + 1) + before.skip(i + 1));
        i = i + 1;
    }
}

/// What a transfer was primed with is what its report is measured against, and
/// no other endpoint's transfer changes.
pub proof fn primed_transfer_is_reported(
    t: Transfers,
    layout: DmaLayout,
    addr: EndpointAddress,
    other: EndpointAddress,
    buf_addr: u32,
    len: usize,
)
    requires
        t.queue_heads.len() == 16,
        t.dtds.len() == 16,
        t.requested.len() == 16,
        addr.is_real(),
        other.is_real(),
        len <= MAX_DTD_TRANSFER_BYTES,
    ensures
        ({
            let p = t.primed(layout, addr, buf_addr, len);
            &&& p.requested[addr.slot()] == len
            &&& token_active(p.dtds[addr.slot()].token)
            &&& bytes_done(len, p.dtds[addr.slot()].token) == 0
            &&& other != addr ==> p.requested[other.slot()] == t.requested[other.slot()]
                && p.dtds[other.slot()] == t.dtds[other.slot()] && p.queue_heads[other.slot()]
                == t.queue_heads[other.slot()]
        }),
{
    super::slots_are_distinct(addr, other);
    super::descriptor::configured_transfer_reads_back(buf_addr, len, true);
}

} // verus!
