//! A vendor-specific USB device that sends back what it receives.
//!
//! It answers the requests that a host needs to enumerate it.
use vstd::prelude::*;

use crate::hal::usb::descriptor::{DmaLayout, TransferReport};
use crate::hal::usb::device::{
    configure_ops, ep0_ops, prime_ops, stall_ops, transfer_error, EndpointSeen, UsbDevice, UsbOp,
};
use crate::hal::usb::{Direction, EndpointAddress, EndpointType, UsbError};
use crate::usb::driver::sends_control;

verus! {

pub const BULK_PACKET_SIZE: u8 = 64;

pub const VENDOR_REQUEST_GET_STATUS: u8 = 0x5a;

pub const DEVICE_DESCRIPTOR: [u8; 18] = [
    18,
    0x01,
    0x00,
    0x02,
    0x00,
    0x00,
    0x00,
    64,
    0x09,
    0x12,
    0x02,
    0x00,
    0x00,
    0x01,
    0x01,
    0x02,
    0x03,
    0x01,
];

pub const CONFIG_DESCRIPTOR: [u8; 32] = [
    9,
    0x02,
    32,
    0x00,
    0x01,
    0x01,
    0x00,
    0xC0,
    0x00,
    9,
    0x04,
    0x00,
    0x00,
    0x02,
    0xFF,
    0x00,
    0x00,
    0x00,
    7,
    0x05,
    0x01,
    0x02,
    64,
    0x00,
    0x00,
    7,
    0x05,
    0x81,
    0x02,
    64,
    0x00,
    0x00,
];

pub const LANG_ID_DESCRIPTOR: [u8; 4] = [4, 0x03, 0x09, 0x04];

/// The text `zynq-usb`.
pub const VENDOR_STATUS_RESPONSE: [u8; 8] = [0x7a, 0x79, 0x6e, 0x71, 0x2d, 0x75, 0x73, 0x62];

/// Room for a string descriptor.
pub const STRING_BUFFER_SIZE: usize = 64;

/// A control request.
#[derive(Debug, Clone, Copy, PartialEq, Eq, Structural)]
pub struct SetupPacket {
    pub bm_request_type: u8,
    pub b_request: u8,
    pub w_value: u16,
    pub w_index: u16,
    pub w_length: u16,
}

impl SetupPacket {
    /// The request that eight bytes hold. Words are little-endian.
    pub open spec fn of(bytes: Seq<u8>) -> Self {
        SetupPacket {
            bm_request_type: bytes[0],
            b_request: bytes[1],
            w_value: (bytes[2] + 256 * bytes[3]) as u16,
            w_index: (bytes[4] + 256 * bytes[5]) as u16,
            w_length: (bytes[6] + 256 * bytes[7]) as u16,
        }
    }

    pub fn from_bytes(bytes: [u8; 8]) -> (r: Self)
        ensures
            r == SetupPacket::of(bytes@),
    {
        SetupPacket {
            bm_request_type: bytes[0],
            b_request: bytes[1],
            w_value: bytes[2] as u16 + 256 * (bytes[3] as u16),
            w_index: bytes[4] as u16 + 256 * (bytes[5] as u16),
            w_length: bytes[6] as u16 + 256 * (bytes[7] as u16),
        }
    }

    /// Whether the data of the request goes to the host.
    pub fn direction_in(self) -> (r: bool)
        ensures
            r == (self.bm_request_type & 0x80 != 0),
    {
        self.bm_request_type & 0x80 != 0
    }

    pub fn request_type(self) -> (r: u8)
        ensures
            r == self.bm_request_type & 0x60,
    {
        self.bm_request_type & 0x60
    }

    pub fn recipient(self) -> (r: u8)
        ensures
            r == self.bm_request_type & 0x1f,
    {
        self.bm_request_type & 0x1f
    }

    pub fn descriptor_type(self) -> (r: u8)
        ensures
            r == self.w_value / 256,
    {
        (self.w_value / 256) as u8
    }

    pub fn descriptor_index(self) -> (r: u8)
        ensures
            r == self.w_value % 256,
    {
        (self.w_value % 256) as u8
    }
}

/// The descriptor of a text of single-byte characters, cut off to fit `capacity` bytes.
pub open spec fn string_descriptor(text: Seq<u8>, capacity: nat) -> Seq<u8> {
    let room = (capacity - 2) / 2;
    let n = if text.len() < room {
        text.len() as int
    } else {
        room
    };
    Seq::new(
        (2 + 2 * n) as nat,
        |i: int|
            if i == 0 {
                (2 + 2 * n) as u8
            } else if i == 1 {
                0x03
            } else if i % 2 == 0 {
                text[i / 2 - 1]
            } else {
                0
            },
    )
}

/// Writes a string descriptor to the front of `out` and returns its length.
pub fn write_string_descriptor(input: &str, out: &mut Vec<u8>) -> (r: usize)
    requires
        old(out)@.len() >= 2,
    ensures
        r <= old(out)@.len(),
        r == string_descriptor(vstd::utf8::encode_utf8(input@), old(out)@.len()).len(),
        final(out)@ == string_descriptor(vstd::utf8::encode_utf8(input@), old(out)@.len()) + old(out)@.skip(
            r as int,
        ),
{
    let text = input.as_bytes();
    let room: usize = (out.len() - 2) / 2;
    let n: usize = if text.len() < room {
        text.len()
    } else {
        room
    };
    let total: usize = 2 + n * 2;
    let ghost whole = string_descriptor(text@, old(out)@.len());
    out.set(0, #[verifier::truncate] (total as u8));
    out.set(1, 0x03);
    assert(out@ =~= whole.take(2) + old(out)@.skip(2));
    let mut i: usize = 0;
    while i < n
        invariant
            i <= n <= text@.len(),
            n <= (old(out)@.len() - 2) / 2,
            old(out)@.len() <= usize::MAX,
            whole == string_descriptor(text@, old(out)@.len()),
            whole.len() == 2 + 2 * n,
            out@ == whole.take(2 + 2 * i) + old(out)@.skip(2 + 2 * i),
        decreases n - i,
    {
        out.set(2 + i * 2, text[i]);
        out.set(3 + i * 2, 0);
        assert(out@ =~= whole.take(2 + 2 * (i + 1)) + old(out)@.skip(2 + 2 * (i + 1)));
        i = i + 1;
    }
    assert(out@ =~= whole + old(out)@.skip(total as int));
    total
}

/// The text of a string descriptor.
pub open spec fn string_of(index: u8) -> Option<Seq<char>> {
    if index == 1 {
        Some("zynq7000-rs"@)
    } else if index == 2 {
        Some("Phase2 USB"@)
    } else if index == 3 {
        Some("0001"@)
    } else {
        None
    }
}

/// The descriptor that a request asks for.
pub open spec fn descriptor(setup: SetupPacket) -> Option<Seq<u8>> {
    let kind = setup.w_value / 256;
    let index = setup.w_value % 256;
    if kind == 1 && index == 0 {
        Some(DEVICE_DESCRIPTOR@)
    } else if kind == 2 && index == 0 {
        Some(CONFIG_DESCRIPTOR@)
    } else if kind == 3 && index == 0 {
        Some(LANG_ID_DESCRIPTOR@)
    } else if kind == 3 && string_of(index as u8) is Some {
        Some(
            string_descriptor(
                vstd::utf8::encode_utf8(string_of(index as u8)->0),
                STRING_BUFFER_SIZE as nat,
            ),
        )
    } else {
        None
    }
}

fn string_answer(text: &str) -> (r: Vec<u8>)
    ensures
        r@ == string_descriptor(vstd::utf8::encode_utf8(text@), STRING_BUFFER_SIZE as nat),
{
    let mut buf: Vec<u8> = vec![0;STRING_BUFFER_SIZE];
    let len: usize = write_string_descriptor(text, &mut buf);
    buf.truncate(len);
    assert(buf@ =~= string_descriptor(vstd::utf8::encode_utf8(text@), STRING_BUFFER_SIZE as nat));
    buf
}

/// Starts to send the descriptor that a request asks for.
pub fn handle_get_descriptor(device: &mut UsbDevice, setup: SetupPacket, seen: EndpointSeen) -> (r:
    Result<(usize, Vec<UsbOp>), UsbError>)
    requires
        old(device).wf(),
    ensures
        match descriptor(setup) {
            Some(data) => sends_control(
                old(device),
                final(device),
                data,
                setup.w_length as usize,
                seen,
                r,
            ),
            None => {
                &&& r == Err::<(usize, Vec<UsbOp>), UsbError>(UsbError::UnsupportedRequest)
                &&& *final(device) == *old(device)
            },
        },
{
    let len: usize = setup.w_length as usize;
    let index: u8 = setup.descriptor_index();
    match setup.descriptor_type() {
        0x01 => if index == 0 {
            return device.prime_ep0_in(DEVICE_DESCRIPTOR.as_slice(), len, seen);
        },
        0x02 => if index == 0 {
            return device.prime_ep0_in(CONFIG_DESCRIPTOR.as_slice(), len, seen);
        },
        0x03 => match index {
            0 => return device.prime_ep0_in(LANG_ID_DESCRIPTOR.as_slice(), len, seen),
            1 => {
                let data = string_answer("zynq7000-rs");
                return device.prime_ep0_in(data.as_slice(), len, seen);
            },
            2 => {
                let data = string_answer("Phase2 USB");
                return device.prime_ep0_in(data.as_slice(), len, seen);
            },
            3 => {
                let data = string_answer("0001");
                return device.prime_ep0_in(data.as_slice(), len, seen);
            },
            _ => {},
        },
        _ => {},
    }
    Err(UsbError::UnsupportedRequest)
}

/// What is done once the status stage of a request is over.
#[derive(Debug, Clone, Copy, PartialEq, Eq, Structural)]
pub enum PendingStatusAction {
    Nothing,
    SetConfiguration(u8),
}

/// How a request is answered.
pub enum Answer {
    /// Data goes to the host.
    Data(Seq<u8>),
    /// The request is only acknowledged.
    Acknowledge(PendingStatusAction),
    SetAddress(u8),
    Unsupported,
}

/// The answer to a request, with the given configuration in effect.
pub open spec fn answer(setup: SetupPacket, configuration_value: u8) -> Answer {
    let kind = setup.bm_request_type & 0x60;
    let to_host = setup.bm_request_type & 0x80 != 0;
    let low = (setup.w_value % 256) as u8;
    if kind == 0x40 && to_host && setup.b_request == VENDOR_REQUEST_GET_STATUS {
        Answer::Data(VENDOR_STATUS_RESPONSE@)
    } else if kind != 0 {
        Answer::Unsupported
    } else if to_host && setup.b_request == 0x06 {
        match descriptor(setup) {
            Some(data) => Answer::Data(data),
            None => Answer::Unsupported,
        }
    } else if to_host && setup.b_request == 0x08 {
        Answer::Data(seq![configuration_value])
    } else if to_host && setup.b_request == 0x00 {
        if setup.bm_request_type & 0x1f <= 2 {
            Answer::Data(seq![0, 0])
        } else {
            Answer::Unsupported
        }
    } else if to_host && setup.b_request == 0x0a {
        Answer::Data(seq![0])
    } else if !to_host && setup.b_request == 0x05 {
        Answer::SetAddress(low)
    } else if !to_host && setup.b_request == 0x09 {
        if low <= 1 {
            Answer::Acknowledge(PendingStatusAction::SetConfiguration(low))
        } else {
            Answer::Unsupported
        }
    } else if !to_host && setup.b_request == 0x0b && setup.w_value == 0 && setup.w_index == 0 {
        Answer::Acknowledge(PendingStatusAction::Nothing)
    } else {
        Answer::Unsupported
    }
}

/// What was seen of the two directions of the control endpoint.
#[derive(Debug, Clone, Copy, PartialEq, Eq, Structural)]
pub struct ControlSeen {
    pub to_host: EndpointSeen,
    pub from_host: EndpointSeen,
}

/// The accesses that stage an address.
pub open spec fn address_ops(addr: u8) -> Seq<UsbOp> {
    seq![
        UsbOp::WriteDeviceAddr(
            crate::pac::usb::DeviceAddress {
                raw: crate::bits::set_bit(
                    crate::bits::set_field(0, 25, 7, addr as u32),
                    24,
                    true,
                ),
            },
        ),
    ]
}

/// What an acknowledged request does, after the accesses `first`.
pub open spec fn acknowledges(
    before: &UsbDevice,
    after: &UsbDevice,
    first: Seq<UsbOp>,
    seen: EndpointSeen,
    r: (Vec<UsbOp>, Result<(), UsbError>),
) -> bool {
    let ep0_in = EndpointAddress::of(0, Direction::In);
    &&& after.runtime == before.runtime
    &&& match seen.refusal(ep0_in) {
        Some(e) => {
            &&& r.1 == Err::<(), UsbError>(e)
            &&& r.0@ == first
            &&& after.resources@ == before.resources@
        },
        None => {
            &&& r.1 == Ok::<(), UsbError>(())
            &&& r.0@ == first + ep0_ops(before.layout, Direction::In)
            &&& after.resources@ == before.resources@.primed(
                before.layout,
                ep0_in,
                before.layout.ep0_in_buffer,
                0,
            )
        },
    }
}

/// What an answer with data does: the data stage is started, and then the status
/// stage, in which the host acknowledges it.
pub open spec fn answers_with_data(
    before: &UsbDevice,
    after: &UsbDevice,
    data: Seq<u8>,
    requested_len: usize,
    seen: ControlSeen,
    r: (Vec<UsbOp>, Result<(), UsbError>),
) -> bool {
    let ep0_in = EndpointAddress::of(0, Direction::In);
    let ep0_out = EndpointAddress::of(0, Direction::Out);
    let len = crate::hal::usb::device::control_len(data.len(), requested_len);
    let sent = before.resources@.primed(
        before.layout,
        ep0_in,
        before.layout.ep0_in_buffer,
        len as usize,
    );
    &&& after.runtime == before.runtime
    &&& after.resources.ep0_in_buffer@ == data.take(len) + before.resources.ep0_in_buffer@.skip(len)
    &&& match (seen.to_host.refusal(ep0_in), seen.from_host.refusal(ep0_out)) {
        (Some(e), _) => {
            &&& r.1 == Err::<(), UsbError>(e)
            &&& r.0@ == Seq::<UsbOp>::empty()
            &&& after.resources@ == before.resources@
        },
        (None, Some(e)) => {
            &&& r.1 == Err::<(), UsbError>(e)
            &&& r.0@ == ep0_ops(before.layout, Direction::In)
            &&& after.resources@ == sent
        },
        (None, None) => {
            &&& r.1 == Ok::<(), UsbError>(())
            &&& r.0@ == ep0_ops(before.layout, Direction::In) + ep0_ops(
                before.layout,
                Direction::Out,
            )
            &&& after.resources@ == sent.primed(
                before.layout,
                ep0_out,
                before.layout.ep0_out_buffer,
                0,
            )
        },
    }
}

fn answer_with_data(
    device: &mut UsbDevice,
    sent: Result<(usize, Vec<UsbOp>), UsbError>,
    seen: EndpointSeen,
) -> (r: (Vec<UsbOp>, Result<(), UsbError>))
    requires
        old(device).wf(),
    ensures
        final(device).same_frame(old(device)),
        final(device).runtime == old(device).runtime,
        match sent {
            Ok((_, ops)) => {
                match seen.refusal(EndpointAddress::of(0, Direction::Out)) {
                    Some(e) => {
                        &&& r.0@ == ops@
                        &&& r.1 == Err::<(), UsbError>(e)
                        &&& final(device).resources@ == old(device).resources@
                    },
                    None => {
                        &&& r.0@ == ops@ + ep0_ops(old(device).layout, Direction::Out)
                        &&& r.1 == Ok::<(), UsbError>(())
                        &&& final(device).resources@ == old(device).resources@.primed(
                            old(device).layout,
                            EndpointAddress::of(0, Direction::Out),
                            old(device).layout.ep0_out_buffer,
                            0,
                        )
                    },
                }
            },
            Err(e) => {
                &&& r.0@ == Seq::<UsbOp>::empty()
                &&& r.1 == Err::<(), UsbError>(e)
                &&& *final(device) == *old(device)
            },
        },
{
    match sent {
        Ok((_, mut ops)) => match device.prime_ep0_out_status(seen) {
            Ok(mut more) => {
                ops.append(&mut more);
                (ops, Ok(()))
            },
            Err(e) => (ops, Err(e)),
        },
        Err(e) => {
            let ops: Vec<UsbOp> = Vec::new();
            assert(ops@ =~= Seq::<UsbOp>::empty());
            (ops, Err(e))
        },
    }
}

fn acknowledge(device: &mut UsbDevice, first: Vec<UsbOp>, seen: EndpointSeen) -> (r: (
    Vec<UsbOp>,
    Result<(), UsbError>,
))
    requires
        old(device).wf(),
    ensures
        final(device).same_frame(old(device)),
        acknowledges(old(device), final(device), first@, seen, r),
{
    let mut ops = first;
    match device.prime_ep0_in_status(seen) {
        Ok(mut more) => {
            ops.append(&mut more);
            (ops, Ok(()))
        },
        Err(e) => (ops, Err(e)),
    }
}

/// Answers a request. The accesses are to be performed even where an error comes
/// with them.
pub fn handle_setup_packet(
    device: &mut UsbDevice,
    setup: SetupPacket,
    configuration_value: u8,
    pending_status_action: &mut PendingStatusAction,
    seen: ControlSeen,
) -> (r: (Vec<UsbOp>, Result<(), UsbError>))
    requires
        old(device).wf(),
        answer(setup, configuration_value) matches Answer::SetAddress(addr) ==> addr < 128,
    ensures
        final(device).wf(),
        final(device).layout == old(device).layout,
        final(device).controller == old(device).controller,
        *final(pending_status_action) == match answer(setup, configuration_value) {
            Answer::Acknowledge(action) => action,
            _ => PendingStatusAction::Nothing,
        },
        match answer(setup, configuration_value) {
            Answer::Data(data) => answers_with_data(
                old(device),
                final(device),
                data,
                setup.w_length as usize,
                seen,
                r,
            ),
            Answer::Acknowledge(_) => acknowledges(
                old(device),
                final(device),
                Seq::<UsbOp>::empty(),
                seen.to_host,
                r,
            ),
            Answer::SetAddress(addr) => acknowledges(
                old(device),
                final(device),
                address_ops(addr),
                seen.to_host,
                r,
            ),
            Answer::Unsupported => {
                &&& r.0@ == Seq::<UsbOp>::empty()
                &&& r.1 == Err::<(), UsbError>(UsbError::UnsupportedRequest)
                &&& *final(device) == *old(device)
            },
        },
{
    *pending_status_action = PendingStatusAction::Nothing;
    let kind: u8 = setup.request_type();
    let to_host: bool = setup.direction_in();
    let len: usize = setup.w_length as usize;
    let low: u8 = setup.descriptor_index();
    let mut ops: Vec<UsbOp> = Vec::new();
    assert(ops@ =~= Seq::<UsbOp>::empty());
    if kind == 0x40 && to_host && setup.b_request == VENDOR_REQUEST_GET_STATUS {
        let sent = device.prime_ep0_in(VENDOR_STATUS_RESPONSE.as_slice(), len, seen.to_host);
        return answer_with_data(device, sent, seen.from_host);
    }
    if kind != 0 {
        return (ops, Err(UsbError::UnsupportedRequest));
    }
    if to_host {
        match setup.b_request {
            0x06 => {
                let sent = handle_get_descriptor(device, setup, seen.to_host);
                return answer_with_data(device, sent, seen.from_host);
            },
            0x08 => {
                let data: Vec<u8> = vec![configuration_value];
                assert(data@ =~= seq![configuration_value]);
                let sent = device.prime_ep0_in(data.as_slice(), len, seen.to_host);
                return answer_with_data(device, sent, seen.from_host);
            },
            0x00 => {
                if setup.recipient() <= 2 {
                    let data: Vec<u8> = vec![0, 0];
                    assert(data@ =~= seq![0u8, 0u8]);
                    let sent = device.prime_ep0_in(data.as_slice(), len, seen.to_host);
                    return answer_with_data(device, sent, seen.from_host);
                }
            },
            0x0a => {
                let data: Vec<u8> = vec![0];
                assert(data@ =~= seq![0u8]);
                let sent = device.prime_ep0_in(data.as_slice(), len, seen.to_host);
                return answer_with_data(device, sent, seen.from_host);
            },
            _ => {},
        }
    } else {
        match setup.b_request {
            0x05 => {
                ops.push(device.arm_address_after_status(low));
                assert(ops@ =~= address_ops(low));
                return acknowledge(device, ops, seen.to_host);
            },
            0x09 => {
                if low <= 1 {
                    *pending_status_action = PendingStatusAction::SetConfiguration(low);
                    return acknowledge(device, ops, seen.to_host);
                }
            },
            0x0b => {
                if setup.w_value == 0 && setup.w_index == 0 {
                    return acknowledge(device, ops, seen.to_host);
                }
            },
            _ => {},
        }
    }
    (ops, Err(UsbError::UnsupportedRequest))
}

/// The bulk endpoint in a direction.
pub open spec fn bulk(way: Direction) -> EndpointAddress {
    EndpointAddress::of(1, way)
}

/// How far taking over a configuration is: what was done last.
#[derive(Debug, Clone, Copy, PartialEq, Eq, Structural)]
pub enum ApplyPhase {
    /// Nothing was done yet.
    Start,
    /// The OUT endpoint was enabled or disabled.
    OutConfigured,
    /// The IN endpoint was, too.
    InConfigured,
    /// The OUT endpoint was told to receive.
    Receiving,
}

/// Taking over a configuration. `buffer` is the address of the buffer for received data.
#[derive(Debug, Clone, Copy, PartialEq, Eq, Structural)]
pub struct ConfigurationChange {
    pub value: u8,
    pub buffer: u32,
    pub phase: ApplyPhase,
}

/// What is left of taking over a configuration.
#[derive(Debug)]
pub enum ApplyAction {
    /// Perform the accesses and report how they ended.
    Perform(Vec<UsbOp>),
    /// The change is over.
    Finish(Result<(), UsbError>),
}

/// Starts taking over a configuration: configuration zero disables the bulk endpoints,
/// any other enables them and starts receiving.
pub fn apply_configuration(value: u8, buffer: u32) -> (r: ConfigurationChange)
    ensures
        r == (ConfigurationChange { value, buffer, phase: ApplyPhase::Start }),
{
    ConfigurationChange { value, buffer, phase: ApplyPhase::Start }
}

impl ConfigurationChange {
    /// What enabling or disabling the bulk endpoint of a direction does.
    pub open spec fn configures(
        self,
        way: Direction,
        before: &UsbDevice,
        after: &UsbDevice,
        r: ApplyAction,
    ) -> bool {
        let enable = self.value != 0;
        &&& r matches ApplyAction::Perform(ops)
        &&& ops@ == configure_ops(before.layout, bulk(way), EndpointType::Bulk, enable)
        &&& after.runtime == before.runtime.enabling(bulk(way), enable)
        &&& after.resources@ == (if enable {
            before.resources@.configured(bulk(way), BULK_PACKET_SIZE as u16)
        } else {
            before.resources@.with_requested(bulk(way), 0)
        })
    }

    /// What starting to receive does.
    pub open spec fn receives(
        self,
        before: &UsbDevice,
        after: &UsbDevice,
        seen: EndpointSeen,
        r: ApplyAction,
    ) -> bool {
        let len = BULK_PACKET_SIZE as usize;
        match transfer_error(bulk(Direction::Out), Direction::Out, len, len, seen, self.buffer) {
            Some(e) => {
                &&& r == ApplyAction::Finish(Err(e))
                &&& after.same(before)
            },
            None => {
                &&& r matches ApplyAction::Perform(ops)
                &&& ops@ == seq![UsbOp::Invalidate { addr: self.buffer, len }] + prime_ops(
                    before.layout,
                    bulk(Direction::Out),
                )
                &&& after.runtime == before.runtime
                &&& after.resources@ == before.resources@.primed(
                    before.layout,
                    bulk(Direction::Out),
                    self.buffer,
                    len,
                )
            },
        }
    }

    /// The phase after a step that performs accesses.
    pub open spec fn next_phase(self) -> ApplyPhase {
        match self.phase {
            ApplyPhase::Start => ApplyPhase::OutConfigured,
            ApplyPhase::OutConfigured => ApplyPhase::InConfigured,
            _ => ApplyPhase::Receiving,
        }
    }

    /// Nothing is left to perform once everything so far worked.
    pub open spec fn is_last(self) -> bool {
        self.phase is Receiving || (self.phase is InConfigured && self.value == 0)
    }

    fn configure_bulk(&mut self, device: &mut UsbDevice, way: Direction) -> (r: ApplyAction)
        requires
            old(device).wf(),
            old(self).phase is Start || old(self).phase is OutConfigured,
        ensures
            final(device).same_frame(old(device)),
            old(self).configures(way, old(device), final(device), r),
            *final(self) == (ConfigurationChange { phase: old(self).next_phase(), ..*old(self) }),
    {
        self.phase = match self.phase {
            ApplyPhase::Start => ApplyPhase::OutConfigured,
            _ => ApplyPhase::InConfigured,
        };
        match device.configure_endpoint(
            EndpointAddress::from_parts(1, way),
            EndpointType::Bulk,
            BULK_PACKET_SIZE as u16,
            self.value != 0,
        ) {
            Ok(ops) => ApplyAction::Perform(ops),
            Err(e) => ApplyAction::Finish(Err(e)),
        }
    }

    /// One step, with how the accesses of the step before ended. The first step takes
    /// any success. Accesses that failed, such as a flush that timed out, end the
    /// change: the configuration stays what it was, and later steps are not taken.
    pub fn step(
        &mut self,
        device: &mut UsbDevice,
        outcome: Result<(), UsbError>,
        seen: EndpointSeen,
        configured: &mut bool,
        configuration_value: &mut u8,
    ) -> (r: ApplyAction)
        requires
            old(device).wf(),
        ensures
            final(device).same_frame(old(device)),
            match outcome {
                Err(e) => {
                    &&& r == ApplyAction::Finish(Err(e))
                    &&& *final(device) == *old(device)
                },
                Ok(()) => match old(self).phase {
                    ApplyPhase::Start => old(self).configures(
                        Direction::Out,
                        old(device),
                        final(device),
                        r,
                    ),
                    ApplyPhase::OutConfigured => old(self).configures(
                        Direction::In,
                        old(device),
                        final(device),
                        r,
                    ),
                    _ => if old(self).is_last() {
                        &&& r == ApplyAction::Finish(Ok(()))
                        &&& *final(device) == *old(device)
                    } else {
                        old(self).receives(old(device), final(device), seen, r)
                    },
                },
            },
            *final(self) == (if r is Perform {
                ConfigurationChange { phase: old(self).next_phase(), ..*old(self) }
            } else {
                *old(self)
            }),
            if outcome is Ok && old(self).is_last() {
                &&& *final(configured) == (old(self).value != 0)
                &&& *final(configuration_value) == old(self).value
            } else {
                &&& *final(configured) == *old(configured)
                &&& *final(configuration_value) == *old(configuration_value)
            },
    {
        if let Err(e) = outcome {
            return ApplyAction::Finish(Err(e));
        }
        match self.phase {
            ApplyPhase::Start => return self.configure_bulk(device, Direction::Out),
            ApplyPhase::OutConfigured => return self.configure_bulk(device, Direction::In),
            ApplyPhase::InConfigured => {
                if self.value != 0 {
                    let len: usize = BULK_PACKET_SIZE as usize;
                    return match device.prime_out(
                        EndpointAddress::from_parts(1, Direction::Out),
                        self.buffer,
                        len,
                        len,
                        seen,
                    ) {
                        Ok(ops) => {
                            self.phase = ApplyPhase::Receiving;
                            ApplyAction::Perform(ops)
                        },
                        Err(e) => ApplyAction::Finish(Err(e)),
                    };
                }
            },
            ApplyPhase::Receiving => {},
        }
        *configured = self.value != 0;
        *configuration_value = self.value;
        ApplyAction::Finish(Ok(()))
    }
}

/// What the device remembers between events.
#[derive(Debug, Clone, Copy, PartialEq, Eq, Structural)]
pub struct Session {
    pub configured: bool,
    pub configuration_value: u8,
    pub pending_status_action: PendingStatusAction,
}

impl Session {
    /// The state before the host has done anything, and after every bus reset.
    pub open spec fn start() -> Self {
        Session {
            configured: false,
            configuration_value: 0,
            pending_status_action: PendingStatusAction::Nothing,
        }
    }

    pub fn new() -> (r: Self)
        ensures
            r == Session::start(),
    {
        Session {
            configured: false,
            configuration_value: 0,
            pending_status_action: PendingStatusAction::Nothing,
        }
    }

    pub fn on_bus_reset(&mut self)
        ensures
            *final(self) == Session::start(),
    {
        *self = Session::new();
    }

    /// Ends the handling of a setup packet: what could not be answered is stalled.
    pub fn finish_setup(
        &mut self,
        device: &mut UsbDevice,
        handled: (Vec<UsbOp>, Result<(), UsbError>),
    ) -> (ops: Vec<UsbOp>)
        ensures
            final(self).configured == old(self).configured,
            final(self).configuration_value == old(self).configuration_value,
            if handled.1 is Ok {
                &&& ops@ == handled.0@
                &&& final(self).pending_status_action == old(self).pending_status_action
                &&& *final(device) == *old(device)
            } else {
                let ep0_out = EndpointAddress::of(0, Direction::Out);
                let ep0_in = EndpointAddress::of(0, Direction::In);
                &&& ops@ == handled.0@ + (stall_ops(ep0_out, true) + stall_ops(ep0_in, true))
                &&& final(self).pending_status_action == PendingStatusAction::Nothing
                &&& final(device).same_frame(old(device))
                &&& final(device).resources@ == old(device).resources@
                &&& final(device).runtime == old(device).runtime.stalling(ep0_out, true).stalling(
                    ep0_in,
                    true,
                )
            },
    {
        let (mut ops, done) = handled;
        match done {
            Ok(()) => ops,
            Err(_) => {
                self.pending_status_action = PendingStatusAction::Nothing;
                match device.stall_ep0() {
                    Ok(mut more) => ops.append(&mut more),
                    Err(_) => {},
                }
                ops
            },
        }
    }

    /// The configuration to take over now that a status stage to the host is over.
    pub fn on_status_complete(&mut self) -> (r: Option<u8>)
        ensures
            *final(self) == (Session {
                pending_status_action: PendingStatusAction::Nothing,
                ..*old(self)
            }),
            r == match old(self).pending_status_action {
                PendingStatusAction::SetConfiguration(value) => Some(value),
                PendingStatusAction::Nothing => None,
            },
    {
        match self.pending_status_action {
            PendingStatusAction::SetConfiguration(value) => {
                self.pending_status_action = PendingStatusAction::Nothing;
                Some(value)
            },
            PendingStatusAction::Nothing => None,
        }
    }

    /// How many received bytes are sent back. An empty packet is not answered.
    pub fn echo_len(&self, report: TransferReport) -> (r: Option<usize>)
        ensures
            r == (if self.configured && report.actual_bytes > 0 {
                Some(report.actual_bytes)
            } else {
                None
            }),
    {
        if self.configured && report.actual_bytes > 0 {
            Some(report.actual_bytes)
        } else {
            None
        }
    }
}

/// A request that sets a configuration is acknowledged and then takes effect: only
/// configurations zero and one are accepted.
pub proof fn accepted_configurations_are_zero_and_one(setup: SetupPacket, current: u8)
    requires
        answer(setup, current) matches Answer::Acknowledge(
            PendingStatusAction::SetConfiguration(_),
        ),
    ensures
        answer(setup, current)->Acknowledge_0->SetConfiguration_0 <= 1,
{
}

} // verus!
