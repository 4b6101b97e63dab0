//! What an Embassy USB stack drives a controller with.
//!
//! Tasks poll: each poll tests the runtime state first, then works on the
//! device. The caller performs the accesses and registers wakers.
use vstd::prelude::*;

use super::descriptor::{TransferReport, Transfers, UsbResources};
use super::device::{
    abort_ops, bus_reset_ops, configure_ops, copy_front, device_mode_ops, disable_ops, ep0_ops,
    prime_ops, stall_ops, transfer_error, EndpointSeen, InitRegisters, UsbDevice, UsbOp, Waker,
};
use super::runtime::{first_event, ControllerRuntime, Event};
use super::{
    endpoint_mask, ep0_addr, mask_of, mask_updates_one_bit, Direction, EndpointAddress,
    EndpointInfo, EndpointType, UsbError, UsbId, CONTROL_BUFFER_SIZE, MAX_ENDPOINTS,
};
use crate::bits;
use crate::pac::usb::{DeviceAddress, OtgSc};

verus! {

/// Why an endpoint operation failed.
#[derive(Debug, Clone, Copy, PartialEq, Eq, Structural)]
pub enum EndpointError {
    BufferOverflow,
    Disabled,
}

/// No endpoint fits the request.
#[derive(Debug, Clone, Copy, PartialEq, Eq, Structural)]
pub struct EndpointAllocError;

/// How the stack sees a device error.
pub open spec fn endpoint_error(err: UsbError) -> EndpointError {
    match err {
        UsbError::BufferTooSmall { .. } => EndpointError::BufferOverflow,
        UsbError::TransferTooLarge(_) => EndpointError::BufferOverflow,
        _ => EndpointError::Disabled,
    }
}

pub fn map_usb_error(err: UsbError) -> (r: EndpointError)
    ensures
        r == endpoint_error(err),
{
    match err {
        UsbError::BufferTooSmall { .. } | UsbError::TransferTooLarge(_) => {
            EndpointError::BufferOverflow
        },
        _ => EndpointError::Disabled,
    }
}

/// The state that a failed driver is left in.
pub open spec fn failed_runtime(rt: ControllerRuntime) -> ControllerRuntime {
    ControllerRuntime { failed: true, ..rt.without_endpoints() }
}

/// Everyone who is woken when the driver fails.
pub open spec fn failure_wakes() -> Seq<Waker> {
    seq![Waker::Bus, Waker::Control, Waker::DataIn, Waker::DataOut]
}

/// Marks the driver as failed: no endpoint works until it is enabled again, and
/// every waiting task is woken to see that.
pub fn fail_driver(rt: &mut ControllerRuntime) -> (wakes: Vec<Waker>)
    ensures
        *final(rt) == failed_runtime(*old(rt)),
        wakes@ == failure_wakes(),
{
    rt.set_failed(true);
    rt.clear_endpoint_state();
    let wakes: Vec<Waker> = vec![Waker::Bus, Waker::Control, Waker::DataIn, Waker::DataOut];
    assert(wakes@ =~= seq![Waker::Bus, Waker::Control, Waker::DataIn, Waker::DataOut]);
    wakes
}

pub fn clear_driver_failure(rt: &mut ControllerRuntime)
    ensures
        *final(rt) == (ControllerRuntime { failed: false, ..*old(rt) }),
{
    rt.set_failed(false);
}

/// An operation that started at reset count `baseline` is over when the driver
/// failed or the bus was reset.
pub fn wait_for_reset(rt: &ControllerRuntime, baseline: u32) -> (r: Result<(), EndpointError>)
    ensures
        r == (if rt.failed || rt.reset_count != baseline {
            Err(EndpointError::Disabled)
        } else {
            Ok(())
        }),
{
    if rt.has_failed() || rt.reset_count() != baseline {
        Err(EndpointError::Disabled)
    } else {
        Ok(())
    }
}

/// An endpoint operation can go on.
pub open spec fn may_transfer(rt: ControllerRuntime, addr: EndpointAddress, baseline: u32) -> bool {
    rt.enables(addr) && !rt.failed && rt.reset_count == baseline
}

/// Whether an endpoint operation that started at reset count `baseline` can go on.
pub fn check_endpoint(rt: &ControllerRuntime, addr: EndpointAddress, baseline: u32) -> (r: Result<
    (),
    EndpointError,
>)
    requires
        addr.number() < 16,
    ensures
        r == (if may_transfer(*rt, addr, baseline) {
            Ok(())
        } else {
            Err(EndpointError::Disabled)
        }),
{
    if !rt.is_enabled(addr) {
        return Err(EndpointError::Disabled);
    }
    wait_for_reset(rt, baseline)
}

/// Whether waiting for an endpoint to be enabled is over.
pub fn wait_enabled(rt: &ControllerRuntime, addr: EndpointAddress) -> (r: bool)
    requires
        addr.number() < 16,
    ensures
        r == (rt.failed || rt.enables(addr)),
{
    rt.has_failed() || rt.is_enabled(addr)
}

/// The endpoints that a driver has handed out.
pub struct Driver {
    pub id: UsbId,
    pub allocated_out: u16,
    pub allocated_in: u16,
    pub out_info: [Option<EndpointInfo>; MAX_ENDPOINTS],
    pub in_info: [Option<EndpointInfo>; MAX_ENDPOINTS],
}

/// Endpoint `index` is taken in the bitmap.
pub open spec fn taken(allocated: u16, index: int) -> bool {
    allocated & (1u16 << (index as u16)) != 0
}

/// The address that a request for an endpoint in direction `dir` gets: the one it
/// names, if that is free, or the free one with the least index.
pub open spec fn grants(
    allocated: u16,
    dir: Direction,
    ep_addr: Option<EndpointAddress>,
    addr: EndpointAddress,
) -> bool {
    &&& addr.is_real()
    &&& addr.way() == dir
    &&& !taken(allocated, addr.number())
    &&& match ep_addr {
        Some(wanted) => addr == wanted,
        None => addr.number() >= 1 && forall|k: int|
            1 <= k < addr.number() ==> #[trigger] taken(allocated, k),
    }
}

impl Driver {
    pub open spec fn allocated(&self, dir: Direction) -> u16 {
        match dir {
            Direction::Out => self.allocated_out,
            Direction::In => self.allocated_in,
        }
    }

    pub open spec fn infos(&self, dir: Direction) -> Seq<Option<EndpointInfo>> {
        match dir {
            Direction::Out => self.out_info@,
            Direction::In => self.in_info@,
        }
    }

    /// Endpoints are known exactly where one was handed out.
    pub open spec fn wf(&self) -> bool {
        forall|dir: Direction, k: int|
            1 <= k < MAX_ENDPOINTS ==> (#[trigger] self.infos(dir)[k] is Some) == taken(
                self.allocated(dir),
                k,
            )
    }

    /// A driver that has handed out nothing but the control endpoint.
    pub fn new(id: UsbId) -> (r: Self)
        ensures
            r.id == id,
            r.allocated_out == 1,
            r.allocated_in == 1,
            r.out_info@ == Seq::new(8, |i: int| None::<EndpointInfo>),
            r.in_info@ == Seq::new(8, |i: int| None::<EndpointInfo>),
            r.wf(),
    {
        let out_info: [Option<EndpointInfo>; MAX_ENDPOINTS] = [None;MAX_ENDPOINTS];
        let in_info: [Option<EndpointInfo>; MAX_ENDPOINTS] = [None;MAX_ENDPOINTS];
        assert(out_info@ =~= Seq::new(8, |i: int| None::<EndpointInfo>));
        assert(in_info@ =~= Seq::new(8, |i: int| None::<EndpointInfo>));
        let r = Driver { id, allocated_out: 1, allocated_in: 1, out_info, in_info };
        proof {
            assert(forall|k: u16| 1 <= k < 8 ==> 1u16 & #[trigger] (1u16 << k) == 0)
                by (bit_vector);
            assert forall|dir: Direction, k: int|
                1 <= k < MAX_ENDPOINTS implies (#[trigger] r.infos(dir)[k] is Some) == taken(
                r.allocated(dir),
                k,
            ) by {
                let j = k as u16;
                assert(1u16 & (1u16 << j) == 0);
            }
        }
        r
    }

    /// Hands out an endpoint whose packets fit a buffer of `buffer_size` bytes.
    /// Isochronous endpoints are not supported.
    pub fn alloc_endpoint(
        &mut self,
        dir: Direction,
        ep_type: EndpointType,
        ep_addr: Option<EndpointAddress>,
        max_packet_size: u16,
        interval_ms: u8,
        buffer_size: usize,
    ) -> (r: Result<EndpointInfo, EndpointAllocError>)
        requires
            old(self).wf(),
        ensures
            final(self).wf(),
            final(self).id == old(self).id,
            match r {
                Ok(info) => {
                    &&& ep_type !is Isochronous
                    &&& max_packet_size <= buffer_size
                    &&& grants(old(self).allocated(dir), dir, ep_addr, info.addr)
                    &&& info == (EndpointInfo {
                        addr: info.addr,
                        ep_type,
                        max_packet_size,
                        interval_ms,
                    })
                    &&& final(self).allocated(dir) == old(self).allocated(dir) | mask_of(info.addr)
                    &&& final(self).infos(dir) == old(self).infos(dir).update(
                        info.addr.number(),
                        Some(info),
                    )
                },
                Err(_) => {
                    &&& ep_type is Isochronous || max_packet_size > buffer_size || forall|
                        addr: EndpointAddress,
                    |
                        !#[trigger] grants(old(self).allocated(dir), dir, ep_addr, addr)
                    &&& final(self).allocated(dir) == old(self).allocated(dir)
                    &&& final(self).infos(dir) == old(self).infos(dir)
                },
            },
            ({
                let other = if dir is In {
                    Direction::Out
                } else {
                    Direction::In
                };
                &&& final(self).allocated(other) == old(self).allocated(other)
                &&& final(self).infos(other) == old(self).infos(other)
            }),
    {
        let isochronous = match ep_type {
            EndpointType::Isochronous => true,
            _ => false,
        };
        if isochronous || max_packet_size as usize > buffer_size {
            return Err(EndpointAllocError);
        }
        let allocated: u16 = match dir {
            Direction::Out => self.allocated_out,
            Direction::In => self.allocated_in,
        };
        let addr: EndpointAddress = match ep_addr {
            Some(addr) => {
                if addr.direction() != dir || addr.index() >= MAX_ENDPOINTS {
                    return Err(EndpointAllocError);
                }
                if allocated & endpoint_mask(addr) != 0 {
                    return Err(EndpointAllocError);
                }
                addr
            },
            None => match free_endpoint(allocated, dir) {
                Some(addr) => addr,
                None => return Err(EndpointAllocError),
            },
        };
        let info = EndpointInfo { addr, ep_type, max_packet_size, interval_ms };
        let mask: u16 = endpoint_mask(addr);
        let index: usize = addr.index();
        match dir {
            Direction::Out => {
                self.allocated_out = allocated | mask;
                self.out_info[index] = Some(info);
            },
            Direction::In => {
                self.allocated_in = allocated | mask;
                self.in_info[index] = Some(info);
            },
        }
        proof {
            let n = addr.number() as u16;
            assert forall|d: Direction, k: int|
                1 <= k < MAX_ENDPOINTS implies (#[trigger] self.infos(d)[k] is Some) == taken(
                self.allocated(d),
                k,
            ) by {
                mask_updates_one_bit(allocated, n, k as u16);
                assert((old(self).infos(d)[k] is Some) == taken(old(self).allocated(d), k));
            }
        }
        Ok(info)
    }
}

/// The free endpoint with the least index, but for the control endpoint.
fn free_endpoint(allocated: u16, dir: Direction) -> (r: Option<EndpointAddress>)
    ensures
        match r {
            Some(addr) => grants(allocated, dir, None, addr),
            None => forall|addr: EndpointAddress|
                !#[trigger] grants(allocated, dir, None, addr),
        },
{
    let mut index: usize = 1;
    while index < MAX_ENDPOINTS
        invariant
            1 <= index <= MAX_ENDPOINTS,
            forall|k: int| 1 <= k < index ==> #[trigger] taken(allocated, k),
        decreases MAX_ENDPOINTS - index,
    {
        let candidate = EndpointAddress::from_parts(index, dir);
        if allocated & endpoint_mask(candidate) == 0 {
            return Some(candidate);
        }
        assert(taken(allocated, index as int));
        index = index + 1;
    }
    assert forall|addr: EndpointAddress| !#[trigger] grants(allocated, dir, None, addr) by {
        assert(1 <= addr.number() < 8 ==> taken(allocated, addr.number()));
    }
    None
}

/// An endpoint that was handed out is not handed out again.
pub proof fn endpoints_are_handed_out_once(
    allocated: u16,
    first: EndpointAddress,
    dir: Direction,
    ep_addr: Option<EndpointAddress>,
    second: EndpointAddress,
)
    requires
        first.is_real(),
        first.way() == dir,
        grants(allocated | mask_of(first), dir, ep_addr, second),
    ensures
        second != first,
{
    mask_updates_one_bit(allocated, first.number() as u16, second.number() as u16);
}

/// Where the data buffers of the endpoints lie: one of `size` bytes per index and direction.
#[derive(Debug, Clone, Copy, PartialEq, Eq, Structural)]
pub struct EndpointBuffers {
    pub out_base: u32,
    pub in_base: u32,
    pub size: u32,
}

impl EndpointBuffers {
    /// The buffers lie within the address space and on cache line boundaries.
    pub open spec fn wf(self) -> bool {
        &&& self.out_base % 32 == 0
        &&& self.in_base % 32 == 0
        &&& self.size % 32 == 0
        &&& self.out_base + 8 * self.size <= u32::MAX
        &&& self.in_base + 8 * self.size <= u32::MAX
    }

    pub open spec fn at(self, addr: EndpointAddress) -> u32 {
        match addr.way() {
            Direction::Out => (self.out_base + addr.number() * self.size) as u32,
            Direction::In => (self.in_base + addr.number() * self.size) as u32,
        }
    }

    pub fn address(&self, addr: EndpointAddress) -> (r: u32)
        requires
            self.wf(),
            addr.is_real(),
        ensures
            r == self.at(addr),
            r % 32 == 0,
    {
        let index: u32 = addr.index() as u32;
        assert(index * self.size <= 8 * self.size) by (nonlinear_arith)
            requires
                index < 8,
        ;
        proof {
            let lines = self.size as int / 32;
            assert(index * self.size == (index * lines) * 32) by (nonlinear_arith)
                requires
                    self.size == lines * 32,
            ;
            vstd::arithmetic::div_mod::lemma_mod_multiples_basic(index * lines, 32);
        }
        match addr.direction() {
            Direction::Out => self.out_base + index * self.size,
            Direction::In => self.in_base + index * self.size,
        }
    }
}

/// The state that the driver's handles share.
pub struct SharedState {
    pub device: UsbDevice,
    pub out_info: [Option<EndpointInfo>; MAX_ENDPOINTS],
    pub in_info: [Option<EndpointInfo>; MAX_ENDPOINTS],
    pub buffers: EndpointBuffers,
    pub setup_packet: Option<[u8; 8]>,
}

impl SharedState {
    pub open spec fn wf(&self) -> bool {
        self.device.wf() && self.buffers.wf() && self.buffers.size == CONTROL_BUFFER_SIZE
    }

    pub open spec fn infos(&self, dir: Direction) -> Seq<Option<EndpointInfo>> {
        match dir {
            Direction::Out => self.out_info@,
            Direction::In => self.in_info@,
        }
    }

    /// Everything but the device and the cached setup packet is that of `other`.
    pub open spec fn same_frame(&self, other: &Self) -> bool {
        self.out_info@ == other.out_info@ && self.in_info@ == other.in_info@ && self.buffers
            == other.buffers
    }

    /// Takes over the endpoints that the driver handed out.
    pub fn store_allocations(&mut self, driver: &Driver)
        ensures
            final(self).out_info@ == driver.out_info@,
            final(self).in_info@ == driver.in_info@,
            final(self).buffers == old(self).buffers,
            final(self).setup_packet is None,
            final(self).device.resources@ == Transfers::idle(),
            final(self).device.runtime == old(self).device.runtime,
            final(self).device.layout == old(self).device.layout,
            final(self).device.controller == old(self).device.controller,
    {
        self.device.resources = UsbResources::new();
        self.out_info = driver.out_info;
        self.in_info = driver.in_info;
        self.clear_cached_setup();
    }

    pub fn clear_cached_setup(&mut self)
        ensures
            final(self).same_frame(old(self)),
            final(self).device == old(self).device,
            final(self).setup_packet is None,
    {
        self.setup_packet = None;
    }

    /// Starts device mode on a controller that was reset.
    pub fn start_device(&mut self, regs: InitRegisters) -> (r: (
        Vec<UsbOp>,
        Result<(), UsbError>,
    ))
        requires
            old(self).wf(),
        ensures
            final(self).same_frame(old(self)),
            final(self).setup_packet is None,
            final(self).device.same_frame(&old(self).device),
            old(self).device.starts_device_mode(&final(self).device, regs, 64, r),
    {
        self.clear_cached_setup();
        self.device.start_device_mode(regs)
    }

    /// Brings the endpoints into the state that follows a bus reset.
    pub fn reset_after_bus_reset(&mut self) -> (r: Result<Vec<UsbOp>, UsbError>)
        requires
            old(self).wf(),
        ensures
            final(self).same_frame(old(self)),
            final(self).setup_packet is None,
            final(self).device.same_frame(&old(self).device),
            old(self).device.resets(&final(self).device, 64, r),
    {
        self.clear_cached_setup();
        self.device.on_bus_reset()
    }

    /// Keeps a setup packet for the control pipe.
    ///
    /// A packet that is kept already is not replaced. `packet` is what was read
    /// from the controller; the control transfer that it overtakes is aborted
    /// once both directions were flushed, see [`UsbDevice::abort_ep0_state`].
    pub fn maybe_capture_setup(
        &mut self,
        packet: Option<[u8; 8]>,
        out_flushed: bool,
        in_flushed: bool,
    ) -> (r: Result<(bool, Vec<UsbOp>), UsbError>)
        requires
            old(self).wf(),
        ensures
            final(self).same_frame(old(self)),
            final(self).device.same_frame(&old(self).device),
            if old(self).setup_packet is Some || packet is None {
                &&& r is Ok
                &&& r->Ok_0.0 == (old(self).setup_packet is Some)
                &&& r->Ok_0.1@ == Seq::<UsbOp>::empty()
                &&& final(self).setup_packet == old(self).setup_packet
                &&& final(self).device == old(self).device
            } else if out_flushed && in_flushed {
                &&& r is Ok
                &&& r->Ok_0.0
                &&& r->Ok_0.1@ == abort_ops(old(self).device.layout)
                &&& final(self).setup_packet == packet
                &&& final(self).device.resources@ == old(self).device.resources@.cleared_ep0()
                &&& final(self).device.runtime == old(self).device.runtime.ep0_aborted()
            } else {
                &&& r == Err::<(bool, Vec<UsbOp>), UsbError>(
                    UsbError::EndpointFlushTimedOut(
                        EndpointAddress::of(
                            0,
                            if out_flushed {
                                Direction::In
                            } else {
                                Direction::Out
                            },
                        ),
                    ),
                )
                &&& final(self).setup_packet is None
                &&& final(self).device.same(&old(self).device)
            },
    {
        if self.setup_packet.is_some() {
            let ops: Vec<UsbOp> = Vec::new();
            assert(ops@ =~= Seq::<UsbOp>::empty());
            return Ok((true, ops));
        }
        match packet {
            None => {
                let ops: Vec<UsbOp> = Vec::new();
                assert(ops@ =~= Seq::<UsbOp>::empty());
                Ok((false, ops))
            },
            Some(bytes) => match self.device.abort_ep0_state(out_flushed, in_flushed) {
                Ok(ops) => {
                    self.setup_packet = Some(bytes);
                    Ok((true, ops))
                },
                Err(e) => Err(e),
            },
        }
    }

    /// Takes the setup packet that is kept.
    pub fn take_setup_packet(&mut self) -> (r: Option<[u8; 8]>)
        ensures
            r == old(self).setup_packet,
            final(self).setup_packet is None,
            final(self).same_frame(old(self)),
            final(self).device == old(self).device,
    {
        let packet = self.setup_packet;
        self.setup_packet = None;
        packet
    }

    /// Enables or disables an endpoint that the driver handed out, see [`enable_endpoint`].
    pub fn endpoint_set_enabled(
        &mut self,
        addr: EndpointAddress,
        enabled: bool,
        seen: EndpointSeen,
    ) -> (r: (Vec<UsbOp>, Result<(), UsbError>))
        requires
            old(self).wf(),
            addr.is_real(),
        ensures
            final(self).same_frame(old(self)),
            final(self).setup_packet == old(self).setup_packet,
            final(self).device.same_frame(&old(self).device),
            enables_endpoint(
                &old(self).device,
                &final(self).device,
                old(self).buffers,
                old(self).infos(addr.way())[addr.number()],
                addr,
                enabled,
                seen,
                r,
            ),
    {
        let info = match addr.direction() {
            Direction::Out => self.out_info[addr.index()],
            Direction::In => self.in_info[addr.index()],
        };
        enable_endpoint(&mut self.device, self.buffers, info, addr, enabled, seen)
    }

    /// Ends a poll of an OUT endpoint: copies what was received, and starts
    /// receiving again.
    ///
    /// `outcome` is what [`UsbDevice::take_transfer_complete`] said. Where a
    /// transfer is reported, its buffer has been made visible and `received` is
    /// what it holds. Data that does not fit `buf` is lost.
    pub fn finish_read(
        &mut self,
        addr: EndpointAddress,
        max_packet: usize,
        outcome: Result<Option<TransferReport>, UsbError>,
        received: &[u8],
        buf: &mut Vec<u8>,
        seen: EndpointSeen,
    ) -> (r: (Option<Result<usize, EndpointError>>, Vec<UsbOp>))
        requires
            old(self).wf(),
            addr.is_real(),
            received@.len() == CONTROL_BUFFER_SIZE,
            outcome matches Ok(Some(report)) ==> report.actual_bytes <= CONTROL_BUFFER_SIZE,
        ensures
            final(self).same_frame(old(self)),
            final(self).setup_packet == old(self).setup_packet,
            final(self).device.same_frame(&old(self).device),
            ({
                let buffer = old(self).buffers.at(addr);
                let error = transfer_error(
                    addr,
                    Direction::Out,
                    CONTROL_BUFFER_SIZE,
                    max_packet,
                    seen,
                    buffer,
                );
                match outcome {
                    Err(e) => {
                        &&& r.0 == Some(Err::<usize, EndpointError>(endpoint_error(e)))
                        &&& r.1@ == Seq::<UsbOp>::empty()
                        &&& final(buf)@ == old(buf)@
                        &&& final(self).device == old(self).device
                    },
                    Ok(None) => {
                        &&& r.0 is None
                        &&& r.1@ == Seq::<UsbOp>::empty()
                        &&& final(buf)@ == old(buf)@
                        &&& final(self).device == old(self).device
                    },
                    Ok(Some(report)) => if error is Some {
                        &&& r.0 == Some(Err::<usize, EndpointError>(endpoint_error(error->0)))
                        &&& r.1@ == Seq::<UsbOp>::empty()
                        &&& final(buf)@ == old(buf)@
                        &&& final(self).device.same(&old(self).device)
                    } else {
                        &&& r.1@ == seq![
                            UsbOp::Invalidate { addr: buffer, len: CONTROL_BUFFER_SIZE },
                        ] + prime_ops(old(self).device.layout, addr)
                        &&& final(self).device.resources@ == old(self).device.resources@.primed(
                            old(self).device.layout,
                            addr,
                            buffer,
                            max_packet,
                        )
                        &&& final(self).device.runtime == old(self).device.runtime
                        &&& if report.actual_bytes > old(buf)@.len() {
                            &&& r.0 == Some(
                                Err::<usize, EndpointError>(EndpointError::BufferOverflow),
                            )
                            &&& final(buf)@ == old(buf)@
                        } else {
                            &&& r.0 == Some(Ok::<usize, EndpointError>(report.actual_bytes))
                            &&& final(buf)@ == received@.take(report.actual_bytes as int)
                                + old(buf)@.skip(report.actual_bytes as int)
                        }
                    },
                }
            }),
    {
        let none: Vec<UsbOp> = Vec::new();
        assert(none@ =~= Seq::<UsbOp>::empty());
        let report = match outcome {
            Ok(Some(report)) => report,
            Ok(None) => return (None, none),
            Err(e) => return (Some(Err(map_usb_error(e))), none),
        };
        let buffer: u32 = self.buffers.address(addr);
        let ops = match self.device.prime_out(
            addr,
            buffer,
            self.buffers.size as usize,
            max_packet,
            seen,
        ) {
            Ok(ops) => ops,
            Err(e) => return (Some(Err(map_usb_error(e))), none),
        };
        let len: usize = report.actual_bytes;
        if len > buf.len() {
            return (Some(Err(EndpointError::BufferOverflow)), ops);
        }
        copy_front(buf, received, len);
        (Some(Ok(len)), ops)
    }

    /// Whether an IN endpoint has a transfer that was started.
    pub fn write_started(&self, addr: EndpointAddress) -> (r: bool)
        requires
            addr.is_real(),
        ensures
            r == (self.device.resources@.requested[addr.slot()] != 0),
    {
        self.device.resources.requested(addr) != 0
    }

    /// Starts sending `len` bytes that were put into the buffer of an IN endpoint.
    pub fn start_write(&mut self, addr: EndpointAddress, len: usize, seen: EndpointSeen) -> (r:
        Result<Vec<UsbOp>, EndpointError>)
        requires
            old(self).wf(),
            addr.is_real(),
        ensures
            final(self).same_frame(old(self)),
            final(self).setup_packet == old(self).setup_packet,
            final(self).device.same_frame(&old(self).device),
            ({
                let buffer = old(self).buffers.at(addr);
                let error = transfer_error(
                    addr,
                    Direction::In,
                    CONTROL_BUFFER_SIZE,
                    len,
                    seen,
                    buffer,
                );
                if len > CONTROL_BUFFER_SIZE {
                    &&& r == Err::<Vec<UsbOp>, EndpointError>(EndpointError::BufferOverflow)
                    &&& final(self).device.same(&old(self).device)
                } else if error is Some {
                    &&& r == Err::<Vec<UsbOp>, EndpointError>(endpoint_error(error->0))
                    &&& final(self).device.same(&old(self).device)
                } else {
                    &&& r is Ok
                    &&& r->Ok_0@ == seq![
                        UsbOp::Clean { addr: buffer, len: CONTROL_BUFFER_SIZE },
                    ] + prime_ops(old(self).device.layout, addr)
                    &&& final(self).device.resources@ == old(self).device.resources@.primed(
                        old(self).device.layout,
                        addr,
                        buffer,
                        len,
                    )
                    &&& final(self).device.runtime == old(self).device.runtime
                }
            }),
    {
        if len > CONTROL_BUFFER_SIZE {
            return Err(EndpointError::BufferOverflow);
        }
        let buffer: u32 = self.buffers.address(addr);
        match self.device.prime_in(addr, buffer, self.buffers.size as usize, len, seen) {
            Ok(ops) => Ok(ops),
            Err(e) => Err(map_usb_error(e)),
        }
    }

    /// Accepts a control request: ends a stall and starts the status stage. A new
    /// address, if there is one, is taken over at its end. The accesses are to be
    /// performed even where an error comes with them.
    pub fn accept(&mut self, address: Option<u8>, seen: EndpointSeen) -> (r: (
        Vec<UsbOp>,
        Result<(), UsbError>,
    ))
        requires
            old(self).wf(),
            address matches Some(a) ==> a < 128,
        ensures
            final(self).same_frame(old(self)),
            final(self).setup_packet == old(self).setup_packet,
            final(self).device.same_frame(&old(self).device),
            accepts(&old(self).device, &final(self).device, address, seen, r),
    {
        accept_request(&mut self.device, address, seen)
    }
}

/// What enabling or disabling an endpoint does. The control endpoint and endpoints
/// that were not handed out are left alone.
pub open spec fn enables_endpoint(
    before: &UsbDevice,
    after: &UsbDevice,
    buffers: EndpointBuffers,
    info: Option<EndpointInfo>,
    addr: EndpointAddress,
    enabled: bool,
    seen: EndpointSeen,
    r: (Vec<UsbOp>, Result<(), UsbError>),
) -> bool {
    if addr.number() == 0 || info is None {
        &&& r.0@ == Seq::<UsbOp>::empty()
        &&& r.1 == Ok::<(), UsbError>(())
        &&& after == before
    } else {
        let ep_type = info->0.ep_type;
        let len = info->0.max_packet_size as usize;
        let configured = if enabled {
            before.resources@.configured(addr, info->0.max_packet_size)
        } else {
            before.resources@.with_requested(addr, 0)
        };
        let ops = configure_ops(before.layout, addr, ep_type, enabled);
        let buffer = buffers.at(addr);
        let error = transfer_error(
            addr,
            Direction::Out,
            buffers.size as usize,
            len,
            seen,
            buffer,
        );
        &&& after.runtime == before.runtime.enabling(addr, enabled)
        &&& if enabled && addr.way() is Out && error is None {
            &&& r.1 == Ok::<(), UsbError>(())
            &&& r.0@ == ops + seq![
                UsbOp::Invalidate { addr: buffer, len: buffers.size as usize },
            ] + prime_ops(before.layout, addr)
            &&& after.resources@ == configured.primed(before.layout, addr, buffer, len)
        } else {
            &&& r.1 == (if enabled && addr.way() is Out {
                Err::<(), UsbError>(error->0)
            } else {
                Ok(())
            })
            &&& r.0@ == ops
            &&& after.resources@ == configured
        }
    }
}

/// Enables or disables an endpoint that the driver handed out. An OUT endpoint
/// that is enabled starts receiving. The accesses are to be performed even where
/// an error comes with them.
pub fn enable_endpoint(
    device: &mut UsbDevice,
    buffers: EndpointBuffers,
    info: Option<EndpointInfo>,
    addr: EndpointAddress,
    enabled: bool,
    seen: EndpointSeen,
) -> (r: (Vec<UsbOp>, Result<(), UsbError>))
    requires
        old(device).wf(),
        buffers.wf(),
        addr.is_real(),
    ensures
        final(device).same_frame(old(device)),
        enables_endpoint(old(device), final(device), buffers, info, addr, enabled, seen, r),
{
    let mut ops: Vec<UsbOp> = Vec::new();
    if addr.index() == 0 {
        assert(ops@ =~= Seq::<UsbOp>::empty());
        return (ops, Ok(()));
    }
    let info = match info {
        Some(info) => info,
        None => {
            assert(ops@ =~= Seq::<UsbOp>::empty());
            return (ops, Ok(()));
        },
    };
    match device.configure_endpoint(addr, info.ep_type, info.max_packet_size, enabled) {
        Ok(more) => ops = more,
        Err(e) => return (ops, Err(e)),
    }
    let out = match addr.direction() {
        Direction::Out => true,
        Direction::In => false,
    };
    if enabled && out {
        let buffer: u32 = buffers.address(addr);
        match device.prime_out(
            addr,
            buffer,
            buffers.size as usize,
            info.max_packet_size as usize,
            seen,
        ) {
            Ok(mut more) => {
                let ghost before = ops@;
                let ghost prime = prime_ops(old(device).layout, addr);
                ops.append(&mut more);
                assert(ops@ =~= before + seq![
                    UsbOp::Invalidate { addr: buffer, len: buffers.size as usize },
                ] + prime);
            },
            Err(e) => return (ops, Err(e)),
        }
    }
    (ops, Ok(()))
}

/// The accesses that accept a control request before its status stage.
pub open spec fn accept_ops(address: Option<u8>) -> Seq<UsbOp> {
    stall_ops(EndpointAddress::of(0, Direction::Out), false) + stall_ops(
        EndpointAddress::of(0, Direction::In),
        false,
    ) + match address {
        Some(a) => seq![
            UsbOp::WriteDeviceAddr(
                DeviceAddress {
                    raw: bits::set_bit(bits::set_field(0, 25, 7, a as u32), 24, true),
                },
            ),
        ],
        None => Seq::empty(),
    }
}

/// What accepting a control request does.
pub open spec fn accepts(
    before: &UsbDevice,
    after: &UsbDevice,
    address: Option<u8>,
    seen: EndpointSeen,
    r: (Vec<UsbOp>, Result<(), UsbError>),
) -> bool {
    let ep0_in = EndpointAddress::of(0, Direction::In);
    &&& after.runtime == before.runtime.stalling(
        EndpointAddress::of(0, Direction::Out),
        false,
    ).stalling(ep0_in, false)
    &&& match seen.refusal(ep0_in) {
        Some(e) => {
            &&& r.1 == Err::<(), UsbError>(e)
            &&& r.0@ == accept_ops(address)
            &&& after.resources@ == before.resources@
        },
        None => {
            &&& r.1 == Ok::<(), UsbError>(())
            &&& r.0@ == accept_ops(address) + ep0_ops(before.layout, Direction::In)
            &&& after.resources@ == before.resources@.primed(
                before.layout,
                ep0_in,
                before.layout.ep0_in_buffer,
                0,
            )
        },
    }
}

/// Ends a stall of the control endpoint, stages an address and starts the status stage.
pub fn accept_request(device: &mut UsbDevice, address: Option<u8>, seen: EndpointSeen) -> (r: (
    Vec<UsbOp>,
    Result<(), UsbError>,
))
    requires
        old(device).wf(),
        address matches Some(a) ==> a < 128,
    ensures
        final(device).same_frame(old(device)),
        accepts(old(device), final(device), address, seen, r),
{
    let mut ops: Vec<UsbOp> = Vec::new();
    match device.set_stalled(ep0_addr(Direction::Out), false) {
        Ok(mut more) => ops.append(&mut more),
        Err(e) => return (ops, Err(e)),
    }
    match device.set_stalled(ep0_addr(Direction::In), false) {
        Ok(mut more) => ops.append(&mut more),
        Err(e) => return (ops, Err(e)),
    }
    if let Some(a) = address {
        ops.push(device.arm_address_after_status(a));
    }
    assert(ops@ =~= accept_ops(address));
    match device.prime_ep0_in_status(seen) {
        Ok(mut more) => {
            ops.append(&mut more);
            (ops, Ok(()))
        },
        Err(e) => (ops, Err(e)),
    }
}

/// What a bus poll reports.
#[derive(Debug, Clone, Copy, PartialEq, Eq, Structural)]
pub enum BusPoll {
    Pending,
    Ready(Event),
}

/// Polls for a bus event. After a reset the caller brings the endpoints into the
/// state that follows one, and fails the driver where that does not work.
pub fn poll_bus(rt: &mut ControllerRuntime) -> (r: BusPoll)
    ensures
        r == match super::runtime::first_event(old(rt).event_flags) {
            Some(event) => BusPoll::Ready(event),
            None => BusPoll::Pending,
        },
        *final(rt) == match super::runtime::first_event(old(rt).event_flags) {
            Some(event) => ControllerRuntime {
                event_flags: old(rt).event_flags & !event.flag(),
                ..*old(rt)
            },
            None => *old(rt),
        },
{
    match rt.take_event() {
        Some(event) => BusPoll::Ready(event),
        None => BusPoll::Pending,
    }
}

/// How far a control transfer is, by whether a setup packet has overtaken it and
/// what became of its transfer. A failure to look for a packet counts as one.
pub fn poll_control_in(
    captured: Result<bool, UsbError>,
    outcome: Result<Option<TransferReport>, UsbError>,
) -> (r: Option<Result<(), EndpointError>>)
    ensures
        r == (if captured != Ok::<bool, UsbError>(false) {
            Some(Err::<(), EndpointError>(EndpointError::Disabled))
        } else {
            match outcome {
                Ok(Some(_)) => Some(Ok(())),
                Ok(None) => None,
                Err(e) => Some(Err(endpoint_error(e))),
            }
        }),
{
    match captured {
        Ok(false) => {},
        _ => return Some(Err(EndpointError::Disabled)),
    }
    match outcome {
        Ok(Some(_)) => Some(Ok(())),
        Ok(None) => None,
        Err(e) => Some(Err(map_usb_error(e))),
    }
}

/// [`poll_control_in`] for received data, of which `outcome` gives the length.
/// `scratch` holds the data, and what fits `buf` is copied.
pub fn poll_control_out(
    captured: Result<bool, UsbError>,
    outcome: Result<Option<usize>, UsbError>,
    scratch: &[u8],
    buf: &mut Vec<u8>,
) -> (r: Option<Result<usize, EndpointError>>)
    requires
        outcome matches Ok(Some(len)) ==> len <= scratch@.len(),
    ensures
        if captured != Ok::<bool, UsbError>(false) {
            &&& r == Some(Err::<usize, EndpointError>(EndpointError::Disabled))
            &&& final(buf)@ == old(buf)@
        } else {
            match outcome {
                Ok(Some(len)) => if len > old(buf)@.len() {
                    &&& r == Some(Err::<usize, EndpointError>(EndpointError::BufferOverflow))
                    &&& final(buf)@ == old(buf)@
                } else {
                    &&& r == Some(Ok::<usize, EndpointError>(len))
                    &&& final(buf)@ == scratch@.take(len as int) + old(buf)@.skip(len as int)
                },
                Ok(None) => r is None && final(buf)@ == old(buf)@,
                Err(e) => {
                    &&& r == Some(Err::<usize, EndpointError>(endpoint_error(e)))
                    &&& final(buf)@ == old(buf)@
                },
            }
        },
{
    match captured {
        Ok(false) => {},
        _ => return Some(Err(EndpointError::Disabled)),
    }
    match outcome {
        Ok(Some(len)) => {
            if len > buf.len() {
                Some(Err(EndpointError::BufferOverflow))
            } else {
                copy_front(buf, scratch, len);
                Some(Ok(len))
            }
        },
        Ok(None) => None,
        Err(e) => Some(Err(map_usb_error(e))),
    }
}

/// Control-pipe handle.
#[derive(Debug, Clone, Copy, PartialEq, Eq, Structural)]
pub struct Control {
    pub id: UsbId,
    pub max_packet_size: usize,
}

impl Control {
    pub fn max_packet_size(&self) -> (r: usize)
        ensures
            r == self.max_packet_size,
    {
        self.max_packet_size
    }

    /// The length of the packet that a stage moves, of a buffer of `len` bytes.
    pub fn packet_len(&self, len: usize) -> (r: usize)
        ensures
            r == (if len < self.max_packet_size {
                len
            } else {
                self.max_packet_size
            }),
    {
        if len < self.max_packet_size {
            len
        } else {
            self.max_packet_size
        }
    }
}

/// The bus side of the driver.
#[derive(Debug, Clone, Copy, PartialEq, Eq, Structural)]
pub struct UsbBus {
    pub id: UsbId,
}

impl UsbBus {
    /// Starts device mode on a controller that was reset. The driver fails where
    /// that does not work.
    pub fn enable(&mut self, state: &mut SharedState, regs: InitRegisters) -> (r: (
        Vec<UsbOp>,
        Vec<Waker>,
    ))
        requires
            old(state).wf(),
        ensures
            *final(self) == *old(self),
            final(state).same_frame(old(state)),
            final(state).device.same_frame(&old(state).device),
            final(state).setup_packet is None,
            ({
                let before = old(state).device;
                let after = final(state).device;
                let entered = before.runtime.device_mode(regs.otgsc_running);
                if bits::bit(regs.usbcmd.raw, 1) {
                    &&& r.0@ == Seq::<UsbOp>::empty()
                    &&& r.1@ == failure_wakes()
                    &&& after.resources@ == before.resources@
                    &&& after.runtime == failed_runtime(before.runtime)
                } else if before.layout.queue_heads % 2048 != 0 {
                    &&& r.0@ == device_mode_ops(regs)
                    &&& r.1@ == failure_wakes()
                    &&& after.resources@ == Transfers::idle()
                    &&& after.runtime == failed_runtime(entered)
                } else {
                    &&& r.0@ == device_mode_ops(regs) + bus_reset_ops(before.layout)
                    &&& r.1@ == Seq::<Waker>::empty()
                    &&& after.resources@ == Transfers::after_bus_reset(64)
                    &&& after.runtime == (ControllerRuntime {
                        failed: false,
                        ..entered.ep0_ready()
                    })
                }
            }),
    {
        let (ops, result) = state.start_device(regs);
        match result {
            Ok(()) => {
                clear_driver_failure(&mut state.device.runtime);
                let wakes: Vec<Waker> = Vec::new();
                assert(wakes@ =~= Seq::<Waker>::empty());
                (ops, wakes)
            },
            Err(_) => {
                let wakes = fail_driver(&mut state.device.runtime);
                (ops, wakes)
            },
        }
    }

    /// Stops the controller.
    pub fn disable(&mut self, state: &mut SharedState, otgsc: OtgSc) -> (ops: Vec<UsbOp>)
        requires
            old(state).wf(),
        ensures
            *final(self) == *old(self),
            final(state).same_frame(old(state)),
            final(state).device.same_frame(&old(state).device),
            final(state).setup_packet is None,
            ops@ == disable_ops(otgsc),
            final(state).device.resources@ == Transfers::idle(),
            final(state).device.runtime == (ControllerRuntime {
                failed: false,
                suspended: false,
                power_present: false,
                ..old(state).device.runtime.without_endpoints()
            }),
    {
        let ops = state.device.disable(otgsc);
        state.clear_cached_setup();
        clear_driver_failure(&mut state.device.runtime);
        ops
    }

    /// Polls for a bus event. After a reset the endpoints are brought into the state
    /// that follows it.
    pub fn poll(&mut self, state: &mut SharedState) -> (r: (
        Option<Event>,
        Vec<UsbOp>,
        Vec<Waker>,
    ))
        requires
            old(state).wf(),
        ensures
            *final(self) == *old(self),
            final(state).same_frame(old(state)),
            final(state).device.same_frame(&old(state).device),
            ({
                let before = old(state).device;
                let after = final(state).device;
                let taken = first_event(before.runtime.event_flags);
                let rt = ControllerRuntime {
                    event_flags: before.runtime.event_flags & !taken->0.flag(),
                    ..before.runtime
                };
                &&& r.0 == taken
                &&& if taken is None {
                    &&& r.1@ == Seq::<UsbOp>::empty()
                    &&& r.2@ == Seq::<Waker>::empty()
                    &&& after.same(&before)
                    &&& final(state).setup_packet == old(state).setup_packet
                } else if taken->0 !is Reset {
                    &&& r.1@ == Seq::<UsbOp>::empty()
                    &&& r.2@ == Seq::<Waker>::empty()
                    &&& after.resources@ == before.resources@
                    &&& after.runtime == rt
                    &&& final(state).setup_packet == old(state).setup_packet
                } else if before.layout.queue_heads % 2048 != 0 {
                    &&& r.1@ == Seq::<UsbOp>::empty()
                    &&& r.2@ == failure_wakes()
                    &&& after.resources@ == Transfers::idle()
                    &&& after.runtime == failed_runtime(rt)
                    &&& final(state).setup_packet is None
                } else {
                    &&& r.1@ == bus_reset_ops(before.layout)
                    &&& r.2@ == Seq::<Waker>::empty()
                    &&& after.resources@ == Transfers::after_bus_reset(64)
                    &&& after.runtime == rt.ep0_ready()
                    &&& final(state).setup_packet is None
                }
            }),
    {
        let none: Vec<UsbOp> = Vec::new();
        assert(none@ =~= Seq::<UsbOp>::empty());
        let quiet: Vec<Waker> = Vec::new();
        assert(quiet@ =~= Seq::<Waker>::empty());
        let event = match poll_bus(&mut state.device.runtime) {
            BusPoll::Pending => return (None, none, quiet),
            BusPoll::Ready(event) => event,
        };
        match event {
            Event::Reset => match state.reset_after_bus_reset() {
                Ok(ops) => (Some(event), ops, quiet),
                Err(_) => {
                    let wakes = fail_driver(&mut state.device.runtime);
                    (Some(event), none, wakes)
                },
            },
            _ => (Some(event), none, quiet),
        }
    }

    /// Ends a change of an endpoint: the driver fails where it did not work, and those
    /// who wait for the control pipe or for an endpoint are woken.
    pub fn finish_endpoint_change(
        &mut self,
        state: &mut SharedState,
        result: Result<(), UsbError>,
    ) -> (wakes: Vec<Waker>)
        requires
            old(state).wf(),
        ensures
            *final(self) == *old(self),
            final(state).same_frame(old(state)),
            final(state).device.same_frame(&old(state).device),
            final(state).setup_packet == old(state).setup_packet,
            final(state).device.resources@ == old(state).device.resources@,
            final(state).device.runtime == (if result is Err {
                failed_runtime(old(state).device.runtime)
            } else {
                old(state).device.runtime
            }),
            wakes@ == (if result is Err {
                failure_wakes()
            } else {
                Seq::<Waker>::empty()
            }) + seq![Waker::Control, Waker::DataIn, Waker::DataOut],
    {
        let mut wakes: Vec<Waker> = Vec::new();
        if result.is_err() {
            wakes = fail_driver(&mut state.device.runtime);
        }
        let ghost failed = wakes@;
        assert(failed =~= (if result is Err {
            failure_wakes()
        } else {
            Seq::<Waker>::empty()
        }));
        wakes.push(Waker::Control);
        wakes.push(Waker::DataIn);
        wakes.push(Waker::DataOut);
        assert(wakes@ =~= failed + seq![Waker::Control, Waker::DataIn, Waker::DataOut]);
        wakes
    }

    pub fn endpoint_is_stalled(&self, state: &SharedState, addr: EndpointAddress) -> (r: bool)
        requires
            addr.number() < 16,
        ensures
            r == state.device.runtime.stalls(addr),
    {
        state.device.runtime.is_stalled(addr)
    }
}

/// An OUT endpoint that the driver handed out.
#[derive(Debug, Clone, Copy, PartialEq, Eq, Structural)]
pub struct EndpointOut {
    pub id: UsbId,
    pub info: EndpointInfo,
}

impl EndpointOut {
    pub fn info(&self) -> (r: &EndpointInfo)
        ensures
            *r == self.info,
    {
        &self.info
    }
}

/// How a write goes on.
#[derive(Debug, Clone, Copy, PartialEq, Eq, Structural)]
pub enum WriteStep {
    /// The endpoint is disabled, or was reset.
    Disabled,
    /// Nothing was started yet: [`SharedState::start_write`].
    Start,
    /// Poll for the end: [`UsbDevice::take_transfer_complete`].
    Await,
}

/// An IN endpoint that the driver handed out.
#[derive(Debug, Clone, Copy, PartialEq, Eq, Structural)]
pub struct EndpointIn {
    pub id: UsbId,
    pub info: EndpointInfo,
}

impl EndpointIn {
    pub fn info(&self) -> (r: &EndpointInfo)
        ensures
            *r == self.info,
    {
        &self.info
    }

    /// How a write that began at reset count `reset_baseline` goes on.
    pub fn write_step(&self, state: &SharedState, reset_baseline: u32) -> (r: WriteStep)
        requires
            self.info.addr.is_real(),
        ensures
            r == (if !may_transfer(state.device.runtime, self.info.addr, reset_baseline) {
                WriteStep::Disabled
            } else if state.device.resources@.requested[self.info.addr.slot()] == 0 {
                WriteStep::Start
            } else {
                WriteStep::Await
            }),
    {
        if check_endpoint(&state.device.runtime, self.info.addr, reset_baseline).is_err() {
            return WriteStep::Disabled;
        }
        if state.device.resources.requested(self.info.addr) == 0 {
            WriteStep::Start
        } else {
            WriteStep::Await
        }
    }
}

} // verus!
