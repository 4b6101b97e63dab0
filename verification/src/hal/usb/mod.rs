//! USB device mode.
//!
//! [`descriptor`] holds the memory that the controller works on, [`runtime`]
//! what interrupts report to waiting tasks, [`device`] the transfers, and
//! [`embassy`] what an Embassy USB stack drives them with.
use vstd::prelude::*;

use crate::cache::AlignmentError;
use crate::interrupt::typelevel;
use crate::pac::usb::{DeviceAddress, EndpointBitmap, OtgSc};

pub mod descriptor;
pub mod device;
pub mod embassy;
pub mod laws;
pub mod runtime;

verus! {

/// Maximum number of endpoint indices.
pub const MAX_ENDPOINTS: usize = 8;

pub const SETUP_PACKET_SIZE: usize = 8;

/// Each endpoint index has one queue head per direction.
pub const QUEUE_HEAD_COUNT: usize = 16;

pub const CONTROL_BUFFER_SIZE: usize = 256;

pub const MAX_DTD_TRANSFER_BYTES: usize = 0x7fff;

/// Status reads until an endpoint flush times out.
pub const ENDPOINT_FLUSH_TIMEOUT_ITERS: usize = 10_000;

/// Status reads until a controller reset times out.
pub const CONTROLLER_RESET_TIMEOUT_ITERS: usize = 10_000;

pub const EPCTRL_RX_ENABLE: u32 = 0x80;

pub const EPCTRL_RX_DATA_TOGGLE_RESET: u32 = 0x40;

pub const EPCTRL_RX_TYPE_SHIFT: u32 = 2;

pub const EPCTRL_RX_STALL: u32 = 1;

pub const EPCTRL_TX_ENABLE: u32 = 0x80_0000;

pub const EPCTRL_TX_DATA_TOGGLE_RESET: u32 = 0x40_0000;

pub const EPCTRL_TX_TYPE_SHIFT: u32 = 18;

pub const EPCTRL_TX_STALL: u32 = 0x1_0000;

/// USB controller identifier.
#[derive(Debug, Clone, Copy, PartialEq, Eq, Structural)]
pub enum UsbId {
    /// USB controller 0.
    Usb0,
    /// USB controller 1.
    Usb1,
}

impl UsbId {
    pub fn index(self) -> (r: usize)
        ensures
            r == (if self is Usb0 {
                0int
            } else {
                1
            }),
    {
        match self {
            UsbId::Usb0 => 0,
            UsbId::Usb1 => 1,
        }
    }
}

/// Type-level USB0 controller marker for interrupt bindings.
#[derive(Debug, Clone, Copy, PartialEq, Eq, Structural)]
pub struct Usb0;

/// Type-level USB1 controller marker for interrupt bindings.
#[derive(Debug, Clone, Copy, PartialEq, Eq, Structural)]
pub struct Usb1;

/// Type-level USB controller instance used by bindings.
pub trait Instance {
    /// Logical interrupt source bound to this controller.
    type Interrupt: typelevel::Interrupt;

    spec fn controller() -> UsbId;

    /// Runtime controller identifier.
    fn id() -> (r: UsbId)
        ensures
            r == Self::controller(),
    ;
}

impl Instance for Usb0 {
    type Interrupt = typelevel::Usb0;

    open spec fn controller() -> UsbId {
        UsbId::Usb0
    }

    fn id() -> (r: UsbId) {
        UsbId::Usb0
    }
}

impl Instance for Usb1 {
    type Interrupt = typelevel::Usb1;

    open spec fn controller() -> UsbId {
        UsbId::Usb1
    }

    fn id() -> (r: UsbId) {
        UsbId::Usb1
    }
}

/// Transfer direction, as the host sees it.
#[derive(Debug, Clone, Copy, PartialEq, Eq, Structural)]
pub enum Direction {
    /// Host to device.
    Out,
    /// Device to host.
    In,
}

#[derive(Debug, Clone, Copy, PartialEq, Eq, Structural)]
pub enum EndpointType {
    Control,
    Isochronous,
    Bulk,
    Interrupt,
}

/// An endpoint number with its direction in the top bit.
#[derive(Debug, Clone, Copy, PartialEq, Eq, Structural)]
pub struct EndpointAddress {
    pub raw: u8,
}

impl EndpointAddress {
    pub open spec fn number(self) -> int {
        (self.raw % 128) as int
    }

    pub open spec fn way(self) -> Direction {
        if self.raw >= 128 {
            Direction::In
        } else {
            Direction::Out
        }
    }

    /// The endpoint exists on the controller.
    pub open spec fn is_real(self) -> bool {
        self.number() < MAX_ENDPOINTS
    }

    /// The place of the endpoint among all endpoints, see [`queue_head_index`].
    pub open spec fn slot(self) -> int {
        slot_of(self.number(), self.way())
    }

    /// The address of endpoint `index` in direction `way`.
    pub open spec fn of(index: int, way: Direction) -> EndpointAddress {
        EndpointAddress {
            raw: if way is In {
                (index + 128) as u8
            } else {
                index as u8
            },
        }
    }

    pub fn from_parts(index: usize, dir: Direction) -> (r: Self)
        requires
            index < 128,
        ensures
            r == Self::of(index as int, dir),
            r.number() == index,
            r.way() == dir,
    {
        match dir {
            Direction::Out => EndpointAddress { raw: index as u8 },
            Direction::In => EndpointAddress { raw: index as u8 + 128 },
        }
    }

    pub fn index(&self) -> (r: usize)
        ensures
            r == self.number(),
    {
        (self.raw % 128) as usize
    }

    pub fn direction(&self) -> (r: Direction)
        ensures
            r == self.way(),
    {
        if self.raw >= 128 {
            Direction::In
        } else {
            Direction::Out
        }
    }
}

/// An address is given by its number and direction.
pub proof fn address_parts_identify_it(a: EndpointAddress, b: EndpointAddress)
    requires
        a.number() == b.number(),
        a.way() == b.way(),
    ensures
        a == b,
        a == EndpointAddress::of(a.number(), a.way()),
{
}

/// What a driver knows of an endpoint.
#[derive(Debug, Clone, Copy, PartialEq, Eq, Structural)]
pub struct EndpointInfo {
    pub addr: EndpointAddress,
    pub ep_type: EndpointType,
    pub max_packet_size: u16,
    pub interval_ms: u8,
}

/// Errors returned while bringing the USB controller into device mode.
#[derive(Debug, Clone, Copy, PartialEq, Eq, Structural)]
pub enum UsbInitError {
    /// The controller did not clear its reset bit within the expected spin-wait window.
    ControllerResetTimedOut,
    /// The endpoint queue-head list pointer was not aligned to the controller requirement.
    QueueHeadAlignment,
    /// DMA-visible buffers must be cache-line aligned.
    DmaAlignment(AlignmentError),
}

impl From<AlignmentError> for UsbInitError {
    fn from(value: AlignmentError) -> (r: Self) {
        UsbInitError::DmaAlignment(value)
    }
}

impl vstd::std_specs::convert::FromSpecImpl<AlignmentError> for UsbInitError {
    open spec fn obeys_from_spec() -> bool {
        true
    }

    open spec fn from_spec(value: AlignmentError) -> Self {
        UsbInitError::DmaAlignment(value)
    }
}

/// Errors returned by the reusable USB device-mode path.
#[derive(Debug, Clone, Copy, PartialEq, Eq, Structural)]
pub enum UsbError {
    Init(UsbInitError),
    InvalidEndpoint(usize),
    UnsupportedRequest,
    /// The transfer length exceeds the capacity of a transfer descriptor.
    TransferTooLarge(usize),
    BufferTooSmall { requested: usize, buffer_len: usize },
    /// The endpoint is still active.
    EndpointBusy(EndpointAddress),
    EndpointFlushTimedOut(EndpointAddress),
    /// The transfer completed with an error token.
    TransferFailed { addr: EndpointAddress, token: u32 },
}

impl From<UsbInitError> for UsbError {
    fn from(value: UsbInitError) -> (r: Self) {
        UsbError::Init(value)
    }
}

impl vstd::std_specs::convert::FromSpecImpl<UsbInitError> for UsbError {
    open spec fn obeys_from_spec() -> bool {
        true
    }

    open spec fn from_spec(value: UsbInitError) -> Self {
        UsbError::Init(value)
    }
}

impl From<AlignmentError> for UsbError {
    fn from(value: AlignmentError) -> (r: Self) {
        UsbError::Init(UsbInitError::DmaAlignment(value))
    }
}

impl vstd::std_specs::convert::FromSpecImpl<AlignmentError> for UsbError {
    open spec fn obeys_from_spec() -> bool {
        true
    }

    open spec fn from_spec(value: AlignmentError) -> Self {
        UsbError::Init(UsbInitError::DmaAlignment(value))
    }
}

/// Bus and endpoint events decoded from one interrupt service pass.
#[derive(Debug, Clone, Copy, PartialEq, Eq, Structural)]
pub struct InterruptResult {
    pub usb_interrupt: bool,
    pub usb_error: bool,
    pub port_change: bool,
    pub reset: bool,
    pub suspend: bool,
    pub resume: bool,
    pub setup_endpoints: u16,
    pub completed_out_endpoints: u16,
    pub completed_in_endpoints: u16,
}

impl InterruptResult {
    pub fn has_any_event(&self) -> (r: bool)
        ensures
            r == (*self != (InterruptResult {
                usb_interrupt: false,
                usb_error: false,
                port_change: false,
                reset: false,
                suspend: false,
                resume: false,
                setup_endpoints: 0,
                completed_out_endpoints: 0,
                completed_in_endpoints: 0,
            })),
    {
        self.usb_interrupt || self.usb_error || self.port_change || self.reset || self.suspend
            || self.resume || self.setup_endpoints != 0 || self.completed_out_endpoints != 0
            || self.completed_in_endpoints != 0
    }
}

/// The place of an endpoint among all endpoints: the two directions of an index are neighbours.
pub open spec fn slot_of(ep_index: int, dir: Direction) -> int {
    ep_index * 2 + (if dir is In {
        1int
    } else {
        0
    })
}

pub fn queue_head_index(ep_index: usize, dir: Direction) -> (r: usize)
    requires
        ep_index < MAX_ENDPOINTS,
    ensures
        r == slot_of(ep_index as int, dir),
        r < QUEUE_HEAD_COUNT,
{
    match dir {
        Direction::Out => ep_index * 2,
        Direction::In => ep_index * 2 + 1,
    }
}

/// Different endpoints have different places, and every place belongs to one.
pub proof fn slots_are_distinct(a: EndpointAddress, b: EndpointAddress)
    requires
        a.is_real(),
        b.is_real(),
    ensures
        0 <= a.slot() < QUEUE_HEAD_COUNT,
        a.slot() == b.slot() <==> a == b,
{
}

/// The bit of an endpoint index.
pub open spec fn mask_of(addr: EndpointAddress) -> u16 {
    1u16 << (addr.number() as u16)
}

pub fn endpoint_mask(addr: EndpointAddress) -> (r: u16)
    requires
        addr.number() < 16,
    ensures
        r == mask_of(addr),
{
    1u16 << (addr.index() as u16)
}

/// Setting or clearing the bit of an index does so, and leaves the bits of other indices alone.
pub proof fn mask_updates_one_bit(x: u16, i: u16, j: u16)
    by (bit_vector)
    requires
        i < 16,
        j < 16,
    ensures
        ((x | (1u16 << i)) & (1u16 << j) != 0) == (i == j || x & (1u16 << j) != 0),
        ((x & !(1u16 << i)) & (1u16 << j) != 0) == (i != j && x & (1u16 << j) != 0),
        0u16 & (1u16 << j) == 0,
{
}

/// The bitmap that holds one endpoint alone.
pub open spec fn bitmap_of(addr: EndpointAddress) -> EndpointBitmap {
    EndpointBitmap {
        raw: match addr.way() {
            Direction::Out => crate::bits::set_field(0, 0, 16, mask_of(addr) as u32),
            Direction::In => crate::bits::set_field(0, 16, 16, mask_of(addr) as u32),
        },
    }
}

pub fn endpoint_bitmap_for(addr: EndpointAddress) -> (r: EndpointBitmap)
    requires
        addr.number() < 16,
    ensures
        r == bitmap_of(addr),
{
    let bitmap = EndpointBitmap::new_with_raw_value(0);
    match addr.direction() {
        Direction::Out => bitmap.with_rx(endpoint_mask(addr)),
        Direction::In => bitmap.with_tx(endpoint_mask(addr)),
    }
}

/// The bits of one direction of a bitmap.
pub open spec fn bitmap_half(bitmap: EndpointBitmap, way: Direction) -> u16 {
    match way {
        Direction::Out => crate::bits::field(bitmap.raw, 0, 16) as u16,
        Direction::In => crate::bits::field(bitmap.raw, 16, 16) as u16,
    }
}

/// The bitmap holds the endpoint.
pub open spec fn bitmap_holds(bitmap: EndpointBitmap, addr: EndpointAddress) -> bool {
    bitmap_half(bitmap, addr.way()) & mask_of(addr) != 0
}

pub fn endpoint_bitmap_is_set(bitmap: EndpointBitmap, addr: EndpointAddress) -> (r: bool)
    requires
        addr.number() < 16,
    ensures
        r == bitmap_holds(bitmap, addr),
{
    match addr.direction() {
        Direction::Out => bitmap.rx() & endpoint_mask(addr) != 0,
        Direction::In => bitmap.tx() & endpoint_mask(addr) != 0,
    }
}

/// The bitmap of an endpoint holds that endpoint and no other.
pub proof fn bitmap_holds_one_endpoint(a: EndpointAddress, b: EndpointAddress)
    requires
        a.number() < 16,
        b.number() < 16,
    ensures
        bitmap_holds(bitmap_of(a), b) == (a == b),
{
    let i = a.number() as u16;
    let j = b.number() as u16;
    let m = mask_of(a);
    assert((1u16 << i) & (1u16 << j) != 0 <==> i == j) by (bit_vector)
        requires
            i < 16,
            j < 16,
    ;
    assert(0u16 & (1u16 << j) == 0) by (bit_vector);
    let m32 = m as u32;
    lemma_half_words(m32);
}

proof fn lemma_half_words(m: u32)
    by (bit_vector)
    requires
        m <= 0xffff,
    ensures
        crate::bits::field(crate::bits::set_field(0, 0, 16, m), 0, 16) == m,
        crate::bits::field(crate::bits::set_field(0, 16, 16, m), 16, 16) == m,
        crate::bits::field(crate::bits::set_field(0, 0, 16, m), 16, 16) == 0,
        crate::bits::field(crate::bits::set_field(0, 16, 16, m), 0, 16) == 0,
{
}

pub fn ep0_addr(direction: Direction) -> (r: EndpointAddress)
    ensures
        r == EndpointAddress::of(0, direction),
        r.number() == 0,
        r.way() == direction,
        r.is_real(),
{
    EndpointAddress::from_parts(0, direction)
}

/// The device address register that takes `addr` over once the status stage is done.
pub fn staged_device_address(addr: u8) -> (r: DeviceAddress)
    requires
        addr < 128,
    ensures
        r.raw == crate::bits::set_bit(
            crate::bits::set_field(0, 25, 7, addr as u32),
            24,
            true,
        ),
{
    DeviceAddress::new_with_raw_value(0).with_usb_address(addr).with_address_advance(true)
}

/// A staged address reads back, with the advance bit set.
pub proof fn staged_address_reads_back(addr: u32)
    by (bit_vector)
    requires
        addr < 128,
    ensures
        crate::bits::field(
            crate::bits::set_bit(crate::bits::set_field(0, 25, 7, addr), 24, true),
            25,
            7,
        ) == addr,
        crate::bits::bit(
            crate::bits::set_bit(crate::bits::set_field(0, 25, 7, addr), 24, true),
            24,
        ),
{
}

/// A valid session or a valid bus voltage means that power is present.
pub open spec fn power_present(otgsc: OtgSc) -> bool {
    crate::bits::bit(otgsc.raw, 11) || crate::bits::bit(otgsc.raw, 10) || crate::bits::bit(
        otgsc.raw,
        9,
    )
}

pub fn power_present_from_otgsc(otgsc: OtgSc) -> (r: bool)
    ensures
        r == power_present(otgsc),
{
    otgsc.b_session_valid() || otgsc.a_session_valid() || otgsc.a_vbus_valid()
}

pub fn power_detection_interrupts_enabled(otgsc: OtgSc) -> (r: bool)
    ensures
        r == crate::bits::bit(otgsc.raw, 28),
{
    otgsc.b_session_end_interrupt_enable()
}

/// The code of an endpoint type in the endpoint control register.
pub open spec fn type_code(ep_type: EndpointType) -> u32 {
    match ep_type {
        EndpointType::Control => 0,
        EndpointType::Isochronous => 1,
        EndpointType::Bulk => 2,
        EndpointType::Interrupt => 3,
    }
}

pub fn endpoint_type_bits(ep_type: EndpointType) -> (r: u32)
    ensures
        r == type_code(ep_type),
        r < 4,
{
    match ep_type {
        EndpointType::Control => 0,
        EndpointType::Isochronous => 1,
        EndpointType::Bulk => 2,
        EndpointType::Interrupt => 3,
    }
}

} // verus!
