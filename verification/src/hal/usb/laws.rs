//! What the accesses of a controller do to its registers and descriptors.
use vstd::prelude::*;

use super::descriptor::{DmaLayout, EndpointQueueHead, TransferDescriptor};
use super::device::{
    bus_reset_ops, ctrl_op, device_mode, device_mode_ops, interrupt_result, prime_ops, reset_ops,
    setup_done_ops, stall_ops, CommandUpdate, InitRegisters, InterruptRegisters, UsbOp, Waker,
};
use super::embassy::{accept_ops, failed_runtime, failure_wakes, may_transfer};
use super::runtime::{
    cleared_endpoints_are_idle, first_event, power_event, ControllerRuntime, Event,
};
use super::{bitmap_holds, bitmap_of, Direction, EndpointAddress, EndpointType, UsbId};
use crate::bits;
use crate::pac::usb::EndpointBitmap;
use crate::slcr::laws::{bracketed_access_takes_effect, reset_pulse_takes_effect, Slcr};
use crate::slcr::{AmbaClock, SlcrOp};

verus! {

/// The endpoint number of an address: its low seven bits.
pub open spec fn endpoint_number(addr: EndpointAddress) -> int {
    addr.raw as int % 128
}

/// The address is of data to the host: its top bit.
pub open spec fn to_host(addr: EndpointAddress) -> bool {
    addr.raw >= 128
}

/// The first bit of the half word that controls the direction of an address.
pub open spec fn half_of(addr: EndpointAddress) -> u32 {
    if to_host(addr) {
        16
    } else {
        0
    }
}

/// The code of an endpoint type in the control register.
pub open spec fn type_bits(ep_type: EndpointType) -> u32 {
    match ep_type {
        EndpointType::Control => 0,
        EndpointType::Isochronous => 1,
        EndpointType::Bulk => 2,
        EndpointType::Interrupt => 3,
    }
}

/// The half word of the other direction is the same.
pub open spec fn other_half_kept(addr: EndpointAddress, before: u32, after: u32) -> bool {
    if to_host(addr) {
        after & 0xffff == before & 0xffff
    } else {
        after >> 16 == before >> 16
    }
}

proof fn lemma_control_bits(c: u32, b: u32, t: u32)
    by (bit_vector)
    requires
        t < 4,
    ensures
        ({
            let rx = (c & !(3u32 << 2u32)) | (0x80u32 | 0x40u32 | (t << 2u32));
            &&& bits::bit(rx, 7) && bits::bit(rx, 6)
            &&& bits::bit(rx, 0) == bits::bit(c, 0)
            &&& (rx >> 2) & 3 == t
            &&& rx >> 16 == c >> 16
        }),
        ({
            let rx = (c & !(3u32 << 2u32)) & !0x80u32;
            &&& !bits::bit(rx, 7)
            &&& bits::bit(rx, 0) == bits::bit(c, 0)
            &&& rx >> 16 == c >> 16
        }),
        ({
            let tx = (c & !(3u32 << 18u32)) | (0x80_0000u32 | 0x40_0000u32 | (t << 18u32));
            &&& bits::bit(tx, 23) && bits::bit(tx, 22)
            &&& bits::bit(tx, 16) == bits::bit(c, 16)
            &&& (tx >> 18) & 3 == t
            &&& tx & 0xffff == c & 0xffff
        }),
        ({
            let tx = (c & !(3u32 << 18u32)) & !0x80_0000u32;
            &&& !bits::bit(tx, 23)
            &&& bits::bit(tx, 16) == bits::bit(c, 16)
            &&& tx & 0xffff == c & 0xffff
        }),
        bits::bit(c | 1u32, 0) && (c | 1u32) >> 16 == c >> 16,
        bits::bit(c | 1u32, 7) == bits::bit(c, 7),
        !bits::bit(c & !1u32, 0) && (c & !1u32) >> 16 == c >> 16,
        bits::bit(c & !1u32, 7) == bits::bit(c, 7),
        bits::bit(c | 0x1_0000u32, 16) && (c | 0x1_0000u32) & 0xffff == c & 0xffff,
        bits::bit(c | 0x1_0000u32, 23) == bits::bit(c, 23),
        !bits::bit(c & !0x1_0000u32, 16) && (c & !0x1_0000u32) & 0xffff == c & 0xffff,
        bits::bit(c & !0x1_0000u32, 23) == bits::bit(c, 23),
        ((c & !1u32) >> 2) & 3 == (c >> 2) & 3,
        ((c & !0x1_0000u32) >> 18) & 3 == (c >> 18) & 3,
        c >> 16 == b >> 16 ==> bits::bit(c, 23) == bits::bit(b, 23) && bits::bit(c, 16)
            == bits::bit(b, 16) && (c >> 18) & 3 == (b >> 18) & 3,
        c & 0xffff == b & 0xffff ==> bits::bit(c, 7) == bits::bit(b, 7) && bits::bit(c, 0)
            == bits::bit(b, 0) && (c >> 2) & 3 == (b >> 2) & 3,
{
}

/// The control register of an endpoint is programmed in the half of the endpoint's own
/// direction. Enabling sets its enable and toggle reset bits and its type, disabling clears
/// its enable bit. The other half and the stall bit stay.
pub open spec fn programs_own_direction(
    addr: EndpointAddress,
    ep_type: EndpointType,
    enable: bool,
    before: u32,
    after: u32,
) -> bool {
    let h = half_of(addr);
    &&& enable ==> bits::bit(after, (h + 7) as u32) && bits::bit(after, (h + 6) as u32)
    &&& enable ==> (after >> ((h + 2) as u32)) & 3 == type_bits(ep_type)
    &&& !enable ==> !bits::bit(after, (h + 7) as u32)
    &&& bits::bit(after, h) == bits::bit(before, h)
    &&& other_half_kept(addr, before, after)
}

/// Configuring a real endpoint programs the control register of its own number, in the half
/// of its own direction.
pub proof fn configured_endpoint_programs_its_own_direction(
    addr: EndpointAddress,
    ep_type: EndpointType,
    enable: bool,
    before: u32,
)
    requires
        addr.is_real(),
    ensures
        ctrl_op(addr, ep_type, enable) matches UsbOp::ModifyEndptCtrl { index, update } && {
            &&& index == endpoint_number(addr)
            &&& programs_own_direction(addr, ep_type, enable, before, update.applied(before))
        },
{
    lemma_control_bits(before, before, type_bits(ep_type));
}

/// Stalling an endpoint sets the stall bit of its own direction, and ending the stall clears
/// it. Whether either direction is enabled stays, and so does the other half.
pub proof fn stalled_endpoint_stalls_its_own_direction(
    addr: EndpointAddress,
    stalled: bool,
    before: u32,
)
    requires
        addr.is_real(),
    ensures
        stall_ops(addr, stalled)[0] matches UsbOp::ModifyEndptCtrl { index, update } && {
            let after = update.applied(before);
            let h = half_of(addr);
            &&& index == endpoint_number(addr)
            &&& bits::bit(after, h) == stalled
            &&& bits::bit(after, (h + 7) as u32) == bits::bit(before, (h + 7) as u32)
            &&& other_half_kept(addr, before, after)
        },
        forall|i: int|
            1 <= i < stall_ops(addr, stalled).len() ==> #[trigger] stall_ops(addr, stalled)[i] is Wake,
{
    lemma_control_bits(before, before, 0);
}

/// The control register of endpoint zero after the first `n` accesses.
pub open spec fn ctrl0_after(c: u32, ops: Seq<UsbOp>, n: int) -> u32
    decreases n,
{
    if n <= 0 {
        c
    } else {
        match ops[n - 1] {
            UsbOp::ModifyEndptCtrl { index, update } => if index == 0 {
                update.applied(ctrl0_after(c, ops, n - 1))
            } else {
                ctrl0_after(c, ops, n - 1)
            },
            _ => ctrl0_after(c, ops, n - 1),
        }
    }
}

/// A bus reset leaves both directions of the control endpoint enabled as such and not
/// stalled, whatever its control register held.
pub proof fn bus_reset_enables_both_control_directions(c: u32, layout: DmaLayout)
    ensures
        ({
            let ops = bus_reset_ops(layout);
            let after = ctrl0_after(c, ops, ops.len() as int);
            &&& bits::bit(after, 7) && bits::bit(after, 23)
            &&& (after >> 2) & 3 == 0 && (after >> 18) & 3 == 0
            &&& !bits::bit(after, 0) && !bits::bit(after, 16)
        }),
{
    let ops = bus_reset_ops(layout);
    let out = EndpointAddress::of(0, Direction::Out);
    let into = EndpointAddress::of(0, Direction::In);
    assert(ops.len() == 14);
    assert(ops[2] == ctrl_op(out, EndpointType::Control, true));
    assert(ops[4] == ctrl_op(into, EndpointType::Control, true));
    assert(ops[5] == stall_ops(out, false)[0]);
    assert(ops[9] == stall_ops(into, false)[0]);
    assert(ctrl0_after(c, ops, 0) == c);
    assert(ctrl0_after(c, ops, 1) == c);
    assert(ctrl0_after(c, ops, 2) == c);
    configured_endpoint_programs_its_own_direction(out, EndpointType::Control, true, c);
    let c1 = ctrl0_after(c, ops, 3);
    assert(ctrl0_after(c, ops, 4) == c1);
    configured_endpoint_programs_its_own_direction(into, EndpointType::Control, true, c1);
    let c2 = ctrl0_after(c, ops, 5);
    lemma_control_bits(c1, c2, 0);
    stalled_endpoint_stalls_its_own_direction(out, false, c2);
    let c3 = ctrl0_after(c, ops, 6);
    lemma_control_bits(c2, c3, 0);
    assert(ctrl0_after(c, ops, 7) == c3);
    assert(ctrl0_after(c, ops, 8) == c3);
    assert(ctrl0_after(c, ops, 9) == c3);
    stalled_endpoint_stalls_its_own_direction(into, false, c3);
    let c4 = ctrl0_after(c, ops, 10);
    lemma_control_bits(c3, c4, 0);
    assert(ctrl0_after(c, ops, 11) == c4);
    assert(ctrl0_after(c, ops, 12) == c4);
    assert(ctrl0_after(c, ops, 13) == c4);
    assert(ctrl0_after(c, ops, 14) == c4);
}

/// The queue head list that a bus reset registers is the one of the layout, and it is
/// written back to memory last.
pub proof fn bus_reset_registers_the_list(layout: DmaLayout)
    requires
        layout.queue_heads % 2048 == 0,
    ensures
        ({
            let ops = bus_reset_ops(layout);
            &&& (ops[0] matches UsbOp::WriteEndpointListAddr(list) && list.raw
                == layout.queue_heads)
            &&& (ops.last() matches UsbOp::Clean { addr, len } && addr == layout.queue_heads && len
                == 2048)
        }),
{
    super::device::list_address_is_the_base(layout.queue_heads);
}

proof fn lemma_bitmap_bits(n: u16, j: u32)
    by (bit_vector)
    requires
        n < 16,
        j < 32,
    ensures
        bits::bit(bits::set_field(0, 0, 16, (1u16 << n) as u32), j) == (j == n),
        bits::bit(bits::set_field(0, 16, 16, (1u16 << n) as u32), j) == (j == n + 16),
        bits::bit((1u16 << n) as u32, j) == (j == n),
        !bits::bit(0, j),
{
}

/// In the prime, flush, status and completion registers an endpoint has the bit of its
/// number, in the lower half for data from the host and in the upper half for data to it.
pub proof fn endpoint_bits_lie_in_the_half_of_their_direction(addr: EndpointAddress, j: u32)
    requires
        endpoint_number(addr) < 16,
        j < 32,
    ensures
        bits::bit(bitmap_of(addr).raw, j) == (j == endpoint_number(addr) + half_of(addr)),
{
    lemma_bitmap_bits(endpoint_number(addr) as u16, j);
}

proof fn lemma_half_bits(raw: u32, n: u16)
    by (bit_vector)
    requires
        n < 16,
    ensures
        ((raw & 0xffff) as u16 & (1u16 << n) != 0) == bits::bit(raw, n as u32),
        (((raw >> 16) & 0xffff) as u16 & (1u16 << n) != 0) == bits::bit(raw, (n + 16) as u32),
        (raw >> 0) & 0xffff == raw & 0xffff,
        bits::low_mask(16) == 0xffff,
{
}

/// A bitmap holds an endpoint exactly where its bit is set.
pub proof fn held_endpoints_have_their_bit_set(bitmap: EndpointBitmap, addr: EndpointAddress)
    requires
        endpoint_number(addr) < 16,
    ensures
        bitmap_holds(bitmap, addr) == bits::bit(
            bitmap.raw,
            (endpoint_number(addr) + half_of(addr)) as u32,
        ),
{
    lemma_half_bits(bitmap.raw, endpoint_number(addr) as u16);
}

/// A primed endpoint is primed last and alone, after its descriptor and queue head went to
/// memory and the descriptor was linked under the tripwire.
pub proof fn priming_comes_last(layout: DmaLayout, addr: EndpointAddress, j: u32)
    requires
        layout.wf(),
        addr.is_real(),
        j < 32,
    ensures
        ({
            let ops = prime_ops(layout, addr);
            let head = layout.queue_heads + 64 * (2 * endpoint_number(addr) + if to_host(addr) {
                1int
            } else {
                0
            });
            let dtd = 32 * endpoint_number(addr) + if to_host(addr) {
                layout.dtd_in as int
            } else {
                layout.dtd_out as int
            };
            &&& ops.len() == 7
            &&& (ops[0] matches UsbOp::ModifyUsbCmd(update) && bits::bit(update.applied(0), 14))
            &&& ops[1] == UsbOp::AttachDescriptor(addr)
            &&& (ops[2] matches UsbOp::Clean { addr: at, len } && at == head && len == 64)
            &&& ops[3] == UsbOp::AwaitLink(addr)
            &&& (ops[4] matches UsbOp::Clean { addr: at, len } && at == dtd && len == 32)
            &&& (ops[5] matches UsbOp::Clean { addr: at, len } && at == head && len == 64)
            &&& (ops[6] matches UsbOp::WriteEndptPrime(bitmap) && bits::bit(bitmap.raw, j) == (j
                == endpoint_number(addr) + half_of(addr)))
        }),
{
    endpoint_bits_lie_in_the_half_of_their_direction(addr, j);
    bits::set_bit_changes_one_bit(0, 14, true, 14);
}

/// The updates of the command register change the bits that they are for: run is bit zero,
/// the controller reset bit one, the setup tripwire bit thirteen and the descriptor
/// tripwire bit fourteen. All others stay.
pub proof fn command_updates_change_their_bit(raw: u32, v: bool, j: u32)
    requires
        j < 32,
    ensures
        bits::bit(CommandUpdate::Run.applied(raw), j) == (j == 0 || bits::bit(raw, j)),
        bits::bit(CommandUpdate::Stop.applied(raw), j) == (j != 0 && bits::bit(raw, j)),
        bits::bit(CommandUpdate::StopAndReset.applied(raw), j) == (j == 1 || j != 0 && bits::bit(
            raw,
            j,
        )),
        bits::bit(CommandUpdate::SetupTripwire(v).applied(raw), j) == (if j == 13 {
            v
        } else {
            bits::bit(raw, j)
        }),
        bits::bit(CommandUpdate::AddDtdTripwire(v).applied(raw), j) == (if j == 14 {
            v
        } else {
            bits::bit(raw, j)
        }),
{
    bits::set_bit_changes_one_bit(raw, 0, true, j);
    bits::set_bit_changes_one_bit(raw, 0, false, j);
    bits::set_bit_changes_one_bit(bits::set_bit(raw, 0, false), 1, true, j);
    bits::set_bit_changes_one_bit(raw, 13, v, j);
    bits::set_bit_changes_one_bit(raw, 14, v, j);
}

proof fn lemma_device_mode_bits(m: u32)
    by (bit_vector)
    requires
        m == bits::set_bit(bits::set_bit(bits::set_field(0, 0, 2, 2), 3, false), 4, true),
    ensures
        m & 3 == 2,
        !bits::bit(m, 3),
        bits::bit(m, 4),
{
}

/// Entering device mode makes the controller a device with streaming off, lets through the
/// interrupts of transfers, errors, port changes, system errors, resets and suspends and no
/// others, and starts the controller as the last register access.
pub proof fn device_mode_runs_as_a_device(regs: InitRegisters, j: u32)
    requires
        j < 32,
    ensures
        ({
            let ops = device_mode_ops(regs);
            &&& (ops[0] matches UsbOp::WriteUsbMode(mode) && mode.raw & 3 == 2 && bits::bit(
                mode.raw,
                4,
            ) && !bits::bit(mode.raw, 3))
            &&& (ops[5] matches UsbOp::WriteUsbIntr(intr) && bits::bit(intr.raw, j) == (j == 0 || j
                == 1 || j == 2 || j == 4 || j == 6 || j == 8))
            &&& (ops[6] matches UsbOp::ModifyUsbCmd(update) && bits::bit(update.applied(0), 0)
                && update is Run)
            &&& forall|i: int| 7 <= i < ops.len() ==> #[trigger] ops[i] is Wake
            &&& forall|i: int| 0 <= i < 6 ==> !(#[trigger] ops[i] is ModifyUsbCmd)
        }),
{
    lemma_device_mode_bits(device_mode());
    let i0 = bits::set_bit(0, 0, true);
    let i1 = bits::set_bit(i0, 1, true);
    let i2 = bits::set_bit(i1, 2, true);
    let i3 = bits::set_bit(i2, 4, true);
    let i4 = bits::set_bit(i3, 6, true);
    bits::set_bit_changes_one_bit(0, 0, true, j);
    bits::set_bit_changes_one_bit(i0, 1, true, j);
    bits::set_bit_changes_one_bit(i1, 2, true, j);
    bits::set_bit_changes_one_bit(i2, 4, true, j);
    bits::set_bit_changes_one_bit(i3, 6, true, j);
    bits::set_bit_changes_one_bit(i4, 8, true, j);
    lemma_bitmap_bits(0, j);
    bits::set_bit_changes_one_bit(0, 0, true, 0);
}

/// Resetting a controller ungates its own bus clock, holds its own reset lines and no other
/// ones, releases all, and then stops and resets it through its command register.
pub proof fn reset_controller_is_its_own(s: Slcr, id: UsbId)
    requires
        s.usb_reset.released(),
    ensures
        ({
            let ops = reset_ops(id);
            let gate = crate::slcr::unlocked_one(SlcrOp::EnableAmbaClock(AmbaClock::Usb(id)));
            &&& ops.len() == 9
            &&& (ops[8] matches UsbOp::ModifyUsbCmd(update) && bits::bit(update.applied(0), 1)
                && !bits::bit(update.applied(1), 0))
            &&& exists|pulse: Seq<SlcrOp>|
                {
                    let after = s.after_all(gate).after_all(pulse);
                    &&& #[trigger] pulse.len() == 5
                    &&& forall|i: int| 0 <= i < 3 ==> ops[i] == UsbOp::Slcr(#[trigger] gate[i])
                    &&& forall|i: int| 0 <= i < 5 ==> ops[3 + i] == UsbOp::Slcr(#[trigger] pulse[i])
                    &&& !after.unlocked
                    &&& after.amba == s.amba.insert(AmbaClock::Usb(id))
                    &&& after.usb_reset.released()
                    &&& after.usb_held.periph0_ref_rst == (s.usb_held.periph0_ref_rst || id is Usb0)
                    &&& after.usb_held.periph0_cpu1x_rst == (s.usb_held.periph0_cpu1x_rst
                        || id is Usb0)
                    &&& after.usb_held.periph1_ref_rst == (s.usb_held.periph1_ref_rst || id is Usb1)
                    &&& after.usb_held.periph1_cpu1x_rst == (s.usb_held.periph1_cpu1x_rst
                        || id is Usb1)
                }
        }),
{
    let gate = crate::slcr::unlocked_one(SlcrOp::EnableAmbaClock(AmbaClock::Usb(id)));
    let lines = super::device::reset_lines(id);
    let idle = super::device::no_reset();
    let pulse = crate::slcr::reset_pulse(
        SlcrOp::WriteUsbReset(lines),
        1,
        SlcrOp::WriteUsbReset(idle),
    );
    command_updates_change_their_bit(0, true, 1);
    command_updates_change_their_bit(1, true, 0);
    bracketed_access_takes_effect(s, SlcrOp::EnableAmbaClock(AmbaClock::Usb(id)));
    let gated = s.after_all(gate);
    reset_pulse_takes_effect(
        gated,
        SlcrOp::WriteUsbReset(lines),
        1,
        SlcrOp::WriteUsbReset(idle),
    );
    let after = gated.after_all(pulse);
    assert(after.usb_held == gated.usb_held.or(lines) && after.usb_reset == idle);
    let ops = reset_ops(id);
    assert(pulse.len() == 5);
    assert forall|i: int| 0 <= i < 3 implies ops[i] == UsbOp::Slcr(#[trigger] gate[i]) by {}
    assert forall|i: int| 0 <= i < 5 implies ops[3 + i] == UsbOp::Slcr(#[trigger] pulse[i]) by {}
}

/// A setup packet that was read is acknowledged for its own endpoint alone, and the setup
/// tripwire cleared.
pub proof fn setup_packet_is_acknowledged(ep_index: int, raw: u32, j: u32)
    requires
        0 <= ep_index < 16,
        j < 32,
    ensures
        ({
            let ops = setup_done_ops(ep_index);
            &&& ops.len() == 2
            &&& (ops[0] matches UsbOp::WriteEndptSetupStat(ack) && bits::bit(ack.raw, j) == (j
                == ep_index))
            &&& (ops[1] matches UsbOp::ModifyUsbCmd(update) && !bits::bit(update.applied(raw), 13)
                && (j != 13 ==> bits::bit(update.applied(raw), j) == bits::bit(raw, j)))
        }),
{
    lemma_bitmap_bits(ep_index as u16, j);
    command_updates_change_their_bit(raw, false, 13);
    command_updates_change_their_bit(raw, false, j);
}

/// An interrupt reports what the status register flags: transfers in bit zero, errors in bits
/// one and four, port changes in bit two, resets in bit six and suspends in bit eight, and
/// the endpoints whose bit is set in the setup and completion registers.
pub proof fn interrupts_report_what_is_flagged(regs: InterruptRegisters, addr: EndpointAddress)
    requires
        endpoint_number(addr) < 16,
    ensures
        ({
            let r = interrupt_result(regs);
            let s = regs.usbsts.raw;
            &&& r.usb_interrupt == bits::bit(s, 0)
            &&& r.usb_error == (bits::bit(s, 1) || bits::bit(s, 4))
            &&& r.port_change == bits::bit(s, 2)
            &&& r.reset == bits::bit(s, 6)
            &&& r.suspend == bits::bit(s, 8)
            &&& bits::bit(
                regs.endptcomplete.raw,
                (endpoint_number(addr) + half_of(addr)) as u32,
            ) == ((if to_host(addr) {
                r.completed_in_endpoints
            } else {
                r.completed_out_endpoints
            }) & (1u16 << (endpoint_number(addr) as u16)) != 0)
            &&& bits::bit(regs.endptsetupstat.raw, endpoint_number(addr) as u32) == (
            r.setup_endpoints & (1u16 << (endpoint_number(addr) as u16)) != 0)
        }),
{
    lemma_half_bits(regs.endptcomplete.raw, endpoint_number(addr) as u16);
    lemma_half_bits(regs.endptsetupstat.raw, endpoint_number(addr) as u16);
}

proof fn lemma_address_parts(a: u32)
    by (bit_vector)
    ensures
        a & !0xfffu32 <= a,
        a - (a & !0xfffu32) < 0x1000,
        (a & !0xfffu32) % 0x1000 == 0,
        a % 32 == 0 ==> a & !0x1fu32 == a,
        a < 128 ==> bits::set_bit(bits::set_field(0, 25, 7, a), 24, true) == a * 0x200_0000
            + 0x100_0000,
{
}

/// A descriptor points at its buffer page by page: the first page at its first byte, and each
/// next one at the start of the next four kilobytes.
pub proof fn descriptor_pages_follow_the_buffer(buf_addr: u32, len: usize, ioc: bool)
    requires
        buf_addr <= u32::MAX - 0x4000,
    ensures
        ({
            let p = TransferDescriptor::transfer(buf_addr, len, ioc).buffer_page;
            let start = buf_addr - buf_addr as int % 0x1000;
            &&& p.page0 == buf_addr
            &&& p.page1 == start + 0x1000
            &&& p.page2 == start + 0x2000
            &&& p.page3 == start + 0x3000
            &&& p.page4 == start + 0x4000
        }),
        TransferDescriptor::transfer(buf_addr, len, ioc).next_dtd == 1,
{
    lemma_address_parts(buf_addr);
}

/// A queue head that a descriptor is attached to points at it and waits for nothing else.
pub proof fn attached_queue_head_points_at_the_descriptor(head: EndpointQueueHead, dtd_addr: u32)
    requires
        dtd_addr % 32 == 0,
    ensures
        head.attached(dtd_addr).next_dtd == dtd_addr,
        head.attached(dtd_addr).token == 0,
        head.attached(dtd_addr).capabilities == head.capabilities,
{
    lemma_address_parts(dtd_addr);
}

/// The flags of an endpoint lie in the word of its own direction, in the bit of its number.
/// Changing them leaves the words of the other direction alone.
pub proof fn endpoint_flags_lie_in_the_word_of_their_direction(
    rt: ControllerRuntime,
    addr: EndpointAddress,
    v: bool,
)
    requires
        endpoint_number(addr) < 16,
    ensures
        ({
            let own = 1u16 << (endpoint_number(addr) as u16);
            let enabled = rt.enabling(addr, v);
            let stalled = rt.stalling(addr, v);
            let taken = rt.taking(addr);
            if to_host(addr) {
                &&& rt.enables(addr) == (rt.enabled_in & own != 0)
                &&& rt.stalls(addr) == (rt.stalled_in & own != 0)
                &&& rt.has_completed(addr) == (rt.completed_in & own != 0)
                &&& enabled == (ControllerRuntime { enabled_in: enabled.enabled_in, ..rt })
                &&& stalled == (ControllerRuntime { stalled_in: stalled.stalled_in, ..rt })
                &&& taken == (ControllerRuntime { completed_in: taken.completed_in, ..rt })
            } else {
                &&& rt.enables(addr) == (rt.enabled_out & own != 0)
                &&& rt.stalls(addr) == (rt.stalled_out & own != 0)
                &&& rt.has_completed(addr) == (rt.completed_out & own != 0)
                &&& enabled == (ControllerRuntime { enabled_out: enabled.enabled_out, ..rt })
                &&& stalled == (ControllerRuntime { stalled_out: stalled.stalled_out, ..rt })
                &&& taken == (ControllerRuntime { completed_out: taken.completed_out, ..rt })
            }
        }),
{
}

/// A failed driver says so and has no endpoint that works, and every kind of task is woken.
pub proof fn failed_driver_works_no_endpoint(rt: ControllerRuntime, addr: EndpointAddress)
    requires
        endpoint_number(addr) < 16,
    ensures
        failed_runtime(rt).failed,
        !failed_runtime(rt).enables(addr),
        !failed_runtime(rt).stalls(addr),
        !failed_runtime(rt).has_completed(addr),
        failed_runtime(rt).reset_count == rt.reset_count,
        !may_transfer(failed_runtime(rt), addr, rt.reset_count),
        failure_wakes().contains(Waker::Bus),
        failure_wakes().contains(Waker::Control),
        failure_wakes().contains(Waker::DataIn),
        failure_wakes().contains(Waker::DataOut),
{
    cleared_endpoints_are_idle(rt, addr);
    let wakes = failure_wakes();
    assert(wakes[0] is Bus && wakes[1] is Control && wakes[2] is DataIn && wakes[3] is DataOut);
}

/// The event that is taken is pending, none is taken exactly where none is pending, and a
/// change of the power is reported as the event that it is.
pub proof fn taken_event_is_pending(flags: u32, previous: bool, current: bool)
    ensures
        first_event(flags) matches Some(event) ==> flags & event.flag() != 0,
        first_event(flags) is None <==> flags & Event::Reset.flag() == 0 && flags
            & Event::Suspend.flag() == 0 && flags & Event::Resume.flag() == 0 && flags
            & Event::PowerDetected.flag() == 0 && flags & Event::PowerRemoved.flag() == 0,
        power_event(previous, current) == (if previous == current {
            None
        } else if current {
            Some(Event::PowerDetected.flag())
        } else {
            Some(Event::PowerRemoved.flag())
        }),
{
}

/// Accepting a request ends the stall of both directions of the control endpoint, and stages
/// an address, which is last, in the upper seven bits with the bit below set.
pub proof fn accepted_request_ends_the_stall(address: Option<u8>, c: u32)
    requires
        address matches Some(a) ==> a < 128,
    ensures
        ({
            let ops = accept_ops(address);
            let after = ctrl0_after(c, ops, ops.len() as int);
            &&& !bits::bit(after, 0) && !bits::bit(after, 16)
            &&& bits::bit(after, 7) == bits::bit(c, 7)
            &&& bits::bit(after, 23) == bits::bit(c, 23)
            &&& address matches Some(a) ==> (ops.last() matches UsbOp::WriteDeviceAddr(staged)
                && staged.raw == a * 0x200_0000 + 0x100_0000)
            &&& address is None ==> forall|i: int|
                0 <= i < ops.len() ==> !(#[trigger] ops[i] is WriteDeviceAddr)
        }),
{
    let ops = accept_ops(address);
    let out = EndpointAddress::of(0, Direction::Out);
    let into = EndpointAddress::of(0, Direction::In);
    let n = stall_ops(out, false).len() as int;
    assert(n == stall_ops(into, false).len() && n == 4);
    assert(ops[0] == stall_ops(out, false)[0]);
    assert(ops[4] == stall_ops(into, false)[0]);
    stalled_endpoint_stalls_its_own_direction(out, false, c);
    assert(ctrl0_after(c, ops, 0) == c);
    let c1 = ctrl0_after(c, ops, 1);
    lemma_control_bits(c, c1, 0);
    assert(ctrl0_after(c, ops, 2) == c1);
    assert(ctrl0_after(c, ops, 3) == c1);
    assert(ctrl0_after(c, ops, 4) == c1);
    stalled_endpoint_stalls_its_own_direction(into, false, c1);
    let c2 = ctrl0_after(c, ops, 5);
    lemma_control_bits(c1, c2, 0);
    assert(ctrl0_after(c, ops, 6) == c2);
    assert(ctrl0_after(c, ops, 7) == c2);
    assert(ctrl0_after(c, ops, 8) == c2);
    match address {
        Some(a) => {
            lemma_address_parts(a as u32);
            assert(ops.len() == 9);
            assert(ctrl0_after(c, ops, 9) == c2);
        },
        None => {
            assert(ops.len() == 8);
        },
    }
}

} // verus!
