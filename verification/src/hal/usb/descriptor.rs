//! The memory that a USB controller works on: queue heads, transfer
//! descriptors and buffers.
use vstd::prelude::*;

use super::{
    ep0_addr, queue_head_index, Direction, EndpointAddress, CONTROL_BUFFER_SIZE, MAX_ENDPOINTS,
    QUEUE_HEAD_COUNT,
};

verus! {

pub const DTD_NEXT_TERMINATE: u32 = 1;

pub const DTD_TOKEN_ACTIVE: u32 = 0x80;

pub const DTD_TOKEN_HALTED: u32 = 0x40;

pub const DTD_TOKEN_BUFFER_ERROR: u32 = 0x20;

pub const DTD_TOKEN_TRANSACTION_ERROR: u32 = 0x08;

/// The three error bits of a token.
pub const DTD_TOKEN_ERRORS: u32 = 0x68;

pub const DTD_TOKEN_IOC: u32 = 0x8000;

pub const DTD_TOTAL_BYTES_SHIFT: u32 = 16;

pub const QH_CAP_IOS: u32 = 0x8000;

pub const QH_CAP_ZLT: u32 = 0x2000_0000;

pub const QH_MAX_PACKET_SHIFT: u32 = 16;

/// Bytes that a queue head takes in memory.
pub const QUEUE_HEAD_SIZE: usize = 64;

/// Bytes that the queue head list takes in memory.
pub const QUEUE_HEAD_LIST_SIZE: usize = 2048;

/// Bytes that a transfer descriptor takes in memory.
pub const TRANSFER_DESCRIPTOR_SIZE: usize = 32;

/// Alignment that the controller asks of the queue head list.
pub const QUEUE_HEAD_LIST_ALIGN: u32 = 2048;

/// The addresses of the up to five memory pages of a transfer.
#[derive(Debug, Clone, Copy, PartialEq, Eq, Structural)]
pub struct BufferPages {
    pub page0: u32,
    pub page1: u32,
    pub page2: u32,
    pub page3: u32,
    pub page4: u32,
}

impl BufferPages {
    pub open spec fn none() -> Self {
        BufferPages { page0: 0, page1: 0, page2: 0, page3: 0, page4: 0 }
    }

    /// The start of the page `n` pages behind the one that holds `addr`.
    pub open spec fn page_behind(addr: u32, n: int) -> u32 {
        let page = (addr & !0xfffu32) + n * 0x1000;
        if page > u32::MAX {
            (page - 0x1_0000_0000) as u32
        } else {
            page as u32
        }
    }

    /// The pages of a buffer at `addr`.
    pub open spec fn at(addr: u32) -> Self {
        BufferPages {
            page0: addr,
            page1: Self::page_behind(addr, 1),
            page2: Self::page_behind(addr, 2),
            page3: Self::page_behind(addr, 3),
            page4: Self::page_behind(addr, 4),
        }
    }

    pub fn new() -> (r: Self)
        ensures
            r == Self::none(),
    {
        BufferPages { page0: 0, page1: 0, page2: 0, page3: 0, page4: 0 }
    }

    pub fn for_buffer(addr: u32) -> (r: Self)
        ensures
            r == Self::at(addr),
    {
        let start: u32 = addr & !0xfffu32;
        BufferPages {
            page0: addr,
            page1: start.wrapping_add(0x1000),
            page2: start.wrapping_add(0x2000),
            page3: start.wrapping_add(0x3000),
            page4: start.wrapping_add(0x4000),
        }
    }
}

/// A queue head: what the controller knows of one endpoint direction.
#[derive(Debug, Clone, Copy, PartialEq, Eq, Structural)]
pub struct EndpointQueueHead {
    pub capabilities: u32,
    pub current_dtd: u32,
    pub next_dtd: u32,
    pub token: u32,
    pub buffer_page: BufferPages,
    pub reserved: u32,
    pub setup_data0: u32,
    pub setup_data1: u32,
}

/// The capabilities word of a queue head.
pub open spec fn capabilities_of(
    max_packet_size: u16,
    interrupt_on_setup: bool,
    zero_length_termination: bool,
) -> u32 {
    let size = ((max_packet_size as u32) & 0x7ff) << QH_MAX_PACKET_SHIFT;
    let setup = if interrupt_on_setup {
        size | QH_CAP_IOS
    } else {
        size
    };
    if zero_length_termination {
        setup & !QH_CAP_ZLT
    } else {
        setup | QH_CAP_ZLT
    }
}

/// The capabilities word holds what it was made of: the low eleven bits of the
/// packet size, the interrupt request, and that no zero-length packet is wanted.
pub proof fn capabilities_hold_their_parts(size: u16, ios: bool, zlt: bool)
    ensures
        ({
            let c = capabilities_of(size, ios, zlt);
            &&& (c >> 16) & 0x7ff == (size as u32) & 0x7ff
            &&& (c & QH_CAP_IOS != 0) == ios
            &&& (c & QH_CAP_ZLT == 0) == zlt
        }),
{
    let w = size as u32;
    let s = (w & 0x7ff) << 16u32;
    assert(s & 0x8000 == 0 && s & 0x2000_0000 == 0 && (s >> 16) & 0x7ff == w & 0x7ff)
        by (bit_vector)
        requires
            s == (w & 0x7ff) << 16u32,
    ;
    assert(((s | 0x8000) & 0x8000 != 0) && ((s | 0x8000) >> 16) & 0x7ff == (s >> 16) & 0x7ff
        && (s & 0x2000_0000 == 0 ==> (s | 0x8000) & 0x2000_0000 == 0)) by (bit_vector);
    let c = if ios {
        s | 0x8000
    } else {
        s
    };
    assert((c & !0x2000_0000u32) & 0x2000_0000 == 0 && (c | 0x2000_0000) & 0x2000_0000 != 0 && (c
        & !0x2000_0000u32) & 0x8000 == c & 0x8000 && (c | 0x2000_0000) & 0x8000 == c & 0x8000
        && ((c & !0x2000_0000u32) >> 16) & 0x7ff == (c >> 16) & 0x7ff && ((c | 0x2000_0000) >> 16)
        & 0x7ff == (c >> 16) & 0x7ff) by (bit_vector);
}

impl EndpointQueueHead {
    pub open spec fn initial() -> Self {
        EndpointQueueHead {
            capabilities: 0,
            current_dtd: 0,
            next_dtd: DTD_NEXT_TERMINATE,
            token: 0,
            buffer_page: BufferPages::none(),
            reserved: 0,
            setup_data0: 0,
            setup_data1: 0,
        }
    }

    pub fn new() -> (r: Self)
        ensures
            r == Self::initial(),
    {
        EndpointQueueHead {
            capabilities: 0,
            current_dtd: 0,
            next_dtd: DTD_NEXT_TERMINATE,
            token: 0,
            buffer_page: BufferPages::new(),
            reserved: 0,
            setup_data0: 0,
            setup_data1: 0,
        }
    }

    /// The queue head without a transfer.
    pub open spec fn idle(self) -> Self {
        EndpointQueueHead {
            current_dtd: 0,
            next_dtd: DTD_NEXT_TERMINATE,
            token: 0,
            buffer_page: BufferPages::none(),
            ..self
        }
    }

    /// The queue head with the transfer descriptor at `dtd_addr` as its next one.
    pub open spec fn attached(self, dtd_addr: u32) -> Self {
        EndpointQueueHead { next_dtd: dtd_addr & !0x1fu32, token: 0, ..self }
    }

    pub fn configure(
        &mut self,
        max_packet_size: u16,
        interrupt_on_setup: bool,
        zero_length_termination: bool,
    )
        ensures
            *final(self) == (EndpointQueueHead {
                capabilities: capabilities_of(
                    max_packet_size,
                    interrupt_on_setup,
                    zero_length_termination,
                ),
                ..*old(self)
            }),
    {
        let mut capabilities: u32 = ((max_packet_size as u32) & 0x7ff) << QH_MAX_PACKET_SHIFT;
        if interrupt_on_setup {
            capabilities = capabilities | QH_CAP_IOS;
        }
        if zero_length_termination {
            capabilities = capabilities & !QH_CAP_ZLT;
        } else {
            capabilities = capabilities | QH_CAP_ZLT;
        }
        self.capabilities = capabilities;
    }

    pub fn reset_overlay(&mut self)
        ensures
            *final(self) == old(self).idle(),
    {
        self.current_dtd = 0;
        self.next_dtd = DTD_NEXT_TERMINATE;
        self.token = 0;
        self.buffer_page = BufferPages::new();
    }

    pub fn attach_dtd(&mut self, dtd_addr: u32)
        ensures
            *final(self) == old(self).attached(dtd_addr),
    {
        self.next_dtd = dtd_addr & !0x1fu32;
        self.token = 0;
    }

    pub fn setup_words(&self) -> (r: (u32, u32))
        ensures
            r == (self.setup_data0, self.setup_data1),
    {
        (self.setup_data0, self.setup_data1)
    }
}

impl Default for EndpointQueueHead {
    fn default() -> (r: Self)
        ensures
            r == Self::initial(),
    {
        Self::new()
    }
}

/// The queue heads of all endpoints, see [`queue_head_index`].
pub struct EndpointQueueHeadList {
    pub qh: [EndpointQueueHead; QUEUE_HEAD_COUNT],
}

impl EndpointQueueHeadList {
    pub open spec fn view(&self) -> Seq<EndpointQueueHead> {
        self.qh@
    }

    pub fn new() -> (r: Self)
        ensures
            r@ == idle_queue_heads(),
    {
        let qh: [EndpointQueueHead; QUEUE_HEAD_COUNT] = [EndpointQueueHead::new();QUEUE_HEAD_COUNT];
        assert(qh@ =~= idle_queue_heads());
        EndpointQueueHeadList { qh }
    }

    pub fn endpoint(&self, ep_index: usize, dir: Direction) -> (r: EndpointQueueHead)
        requires
            ep_index < MAX_ENDPOINTS,
        ensures
            r == self@[super::slot_of(ep_index as int, dir)],
    {
        self.qh[queue_head_index(ep_index, dir)]
    }

    /// Replaces a queue head.
    pub fn set_endpoint(&mut self, ep_index: usize, dir: Direction, head: EndpointQueueHead)
        requires
            ep_index < MAX_ENDPOINTS,
        ensures
            final(self)@ == old(self)@.update(super::slot_of(ep_index as int, dir), head),
    {
        let index: usize = queue_head_index(ep_index, dir);
        self.qh[index] = head;
    }
}

pub open spec fn idle_queue_heads() -> Seq<EndpointQueueHead> {
    Seq::new(QUEUE_HEAD_COUNT as nat, |i: int| EndpointQueueHead::initial())
}

/// Whether a program's queue heads are handed out. All storages of a program share one.
#[derive(Debug, Clone, Copy, PartialEq, Eq, Structural)]
pub struct QueueHeadsTaken {
    pub taken: bool,
}

impl QueueHeadsTaken {
    pub fn new() -> (r: Self)
        ensures
            !r.taken,
    {
        QueueHeadsTaken { taken: false }
    }
}

/// Memory for a queue head list, which is written when it is taken.
pub struct EndpointQueueHeadStorage {
    pub heads: Option<EndpointQueueHeadList>,
}

impl EndpointQueueHeadStorage {
    pub fn new() -> (r: Self)
        ensures
            r.heads is None,
    {
        EndpointQueueHeadStorage { heads: None }
    }

    /// Hands out the list of this storage, with every queue head idle.
    ///
    /// Only the first call of a program gets one, whichever storage it is made on.
    pub fn take(&mut self, program: &mut QueueHeadsTaken) -> (r: Option<&mut EndpointQueueHeadList>)
        ensures
            final(program).taken,
            r is Some <==> !old(program).taken,
            r is None ==> *final(self) == *old(self),
            r matches Some(heads) ==> {
                &&& heads@ == idle_queue_heads()
                &&& final(self).heads == Some(*final(heads))
            },
    {
        if program.taken {
            return None;
        }
        program.taken = true;
        self.heads = Some(EndpointQueueHeadList::new());
        match &mut self.heads {
            Some(heads) => Some(heads),
            None => None,
        }
    }
}

impl Default for EndpointQueueHeadStorage {
    fn default() -> (r: Self)
        ensures
            r.heads is None,
    {
        Self::new()
    }
}

/// A transfer descriptor.
#[derive(Debug, Clone, Copy, PartialEq, Eq, Structural)]
pub struct TransferDescriptor {
    pub next_dtd: u32,
    pub token: u32,
    pub buffer_page: BufferPages,
}

/// The token of an active transfer of `total_bytes`, of which the low sixteen bits count.
pub open spec fn token_of(total_bytes: usize, interrupt_on_complete: bool) -> u32 {
    let token = (((total_bytes % 0x1_0000) as u32) << DTD_TOTAL_BYTES_SHIFT) | DTD_TOKEN_ACTIVE;
    if interrupt_on_complete {
        token | DTD_TOKEN_IOC
    } else {
        token
    }
}

/// The number of bytes that a token says are still to be transferred.
pub open spec fn bytes_left(token: u32) -> int {
    ((token >> DTD_TOTAL_BYTES_SHIFT) & 0x7fff) as int
}

/// The number of bytes of a transfer that were transferred.
pub open spec fn bytes_done(requested: usize, token: u32) -> int {
    if requested >= bytes_left(token) {
        requested - bytes_left(token)
    } else {
        0
    }
}

pub open spec fn token_active(token: u32) -> bool {
    token & DTD_TOKEN_ACTIVE != 0
}

pub open spec fn token_failed(token: u32) -> bool {
    token & DTD_TOKEN_ERRORS != 0
}

impl TransferDescriptor {
    pub open spec fn initial() -> Self {
        TransferDescriptor {
            next_dtd: DTD_NEXT_TERMINATE,
            token: 0,
            buffer_page: BufferPages::none(),
        }
    }

    /// The descriptor of a transfer.
    pub open spec fn transfer(buf_addr: u32, total_bytes: usize, ioc: bool) -> Self {
        TransferDescriptor {
            next_dtd: DTD_NEXT_TERMINATE,
            token: token_of(total_bytes, ioc),
            buffer_page: BufferPages::at(buf_addr),
        }
    }

    pub fn new() -> (r: Self)
        ensures
            r == Self::initial(),
    {
        TransferDescriptor {
            next_dtd: DTD_NEXT_TERMINATE,
            token: 0,
            buffer_page: BufferPages::new(),
        }
    }

    pub fn reset(&mut self)
        ensures
            *final(self) == Self::initial(),
    {
        self.next_dtd = DTD_NEXT_TERMINATE;
        self.token = 0;
        self.buffer_page = BufferPages::new();
    }

    /// Describes a transfer of `total_bytes`, of which the low sixteen bits count
    /// and have to fit fifteen.
    pub fn configure(&mut self, buf_addr: u32, total_bytes: usize, interrupt_on_complete: bool)
        requires
            total_bytes % 0x1_0000 <= 0x7fff,
        ensures
            *final(self) == Self::transfer(buf_addr, total_bytes, interrupt_on_complete),
    {
        self.next_dtd = DTD_NEXT_TERMINATE;
        self.buffer_page = BufferPages::for_buffer(buf_addr);
        let length: u32 = (total_bytes % 0x1_0000) as u32;
        let mut token: u32 = (length << DTD_TOTAL_BYTES_SHIFT) | DTD_TOKEN_ACTIVE;
        if interrupt_on_complete {
            token = token | DTD_TOKEN_IOC;
        }
        self.token = token;
    }

    pub fn total_bytes(&self) -> (r: usize)
        ensures
            r == bytes_left(self.token),
    {
        ((self.token >> DTD_TOTAL_BYTES_SHIFT) & 0x7fff) as usize
    }

    pub fn actual_bytes_transferred(&self, requested: usize) -> (r: usize)
        ensures
            r == bytes_done(requested, self.token),
    {
        requested.saturating_sub(self.total_bytes())
    }

    pub fn is_active(&self) -> (r: bool)
        ensures
            r == token_active(self.token),
    {
        self.token & DTD_TOKEN_ACTIVE != 0
    }

    pub fn has_error(&self) -> (r: bool)
        ensures
            r == token_failed(self.token),
    {
        proof {
            error_bits_make_the_error_mask();
        }
        self.token & (DTD_TOKEN_HALTED | DTD_TOKEN_BUFFER_ERROR | DTD_TOKEN_TRANSACTION_ERROR) != 0
    }
}

impl Default for TransferDescriptor {
    fn default() -> (r: Self)
        ensures
            r == Self::initial(),
    {
        Self::new()
    }
}

proof fn error_bits_make_the_error_mask()
    by (bit_vector)
    ensures
        DTD_TOKEN_HALTED | DTD_TOKEN_BUFFER_ERROR | DTD_TOKEN_TRANSACTION_ERROR == DTD_TOKEN_ERRORS,
{
}

/// A descriptor that was just configured is active, without error, and has all
/// of its bytes before it.
pub proof fn configured_transfer_reads_back(buf_addr: u32, total_bytes: usize, ioc: bool)
    requires
        total_bytes <= 0x7fff,
    ensures
        ({
            let d = TransferDescriptor::transfer(buf_addr, total_bytes, ioc);
            &&& token_active(d.token)
            &&& !token_failed(d.token)
            &&& bytes_left(d.token) == total_bytes
            &&& bytes_done(total_bytes, d.token) == 0
            &&& (d.token & DTD_TOKEN_IOC != 0) == ioc
            &&& d.buffer_page.page0 == buf_addr
        }),
{
    let n = total_bytes as u32;
    let t = (n << 16u32) | 0x80u32;
    assert(t & 0x80 != 0 && t & 0x68 == 0 && t & 0x8000 == 0 && (t >> 16) & 0x7fff == n && (t
        | 0x8000) & 0x80 != 0 && (t | 0x8000) & 0x68 == 0 && (t | 0x8000) & 0x8000 != 0 && ((t
        | 0x8000) >> 16) & 0x7fff == n) by (bit_vector)
        requires
            n <= 0x7fff,
            t == (n << 16u32) | 0x80u32,
    ;
}

/// A buffer that the controller reaches by DMA.
#[derive(Debug)]
pub struct AlignedUsbBuffer<const N: usize>(pub [u8; N]);

impl<const N: usize> AlignedUsbBuffer<N> {
    pub open spec fn view(&self) -> Seq<u8> {
        self.0@
    }
}

impl AlignedUsbBuffer<CONTROL_BUFFER_SIZE> {
    /// A control buffer of zeros.
    pub fn new() -> (r: Self)
        ensures
            r@ == Seq::new(CONTROL_BUFFER_SIZE as nat, |i: int| 0u8),
    {
        let bytes: [u8; CONTROL_BUFFER_SIZE] = [0;CONTROL_BUFFER_SIZE];
        assert(bytes@ =~= Seq::new(CONTROL_BUFFER_SIZE as nat, |i: int| 0u8));
        AlignedUsbBuffer(bytes)
    }
}

/// Report for a completed USB transfer.
#[derive(Debug, Clone, Copy, PartialEq, Eq, Structural)]
pub struct TransferReport {
    pub requested_bytes: usize,
    pub actual_bytes: usize,
    pub token: u32,
}

impl TransferReport {
    pub fn has_error(&self) -> (r: bool)
        ensures
            r == token_failed(self.token),
    {
        proof {
            error_bits_make_the_error_mask();
        }
        self.token & (DTD_TOKEN_HALTED | DTD_TOKEN_BUFFER_ERROR | DTD_TOKEN_TRANSACTION_ERROR) != 0
    }
}

/// Where the memory of a controller lies.
#[derive(Debug, Clone, Copy, PartialEq, Eq, Structural)]
pub struct DmaLayout {
    pub queue_heads: u32,
    pub dtd_out: u32,
    pub dtd_in: u32,
    pub ep0_out_buffer: u32,
    pub ep0_in_buffer: u32,
}

impl DmaLayout {
    /// Everything lies within the address space and on cache line boundaries.
    pub open spec fn wf(self) -> bool {
        &&& self.queue_heads % 32 == 0
        &&& self.dtd_out % 32 == 0
        &&& self.dtd_in % 32 == 0
        &&& self.ep0_out_buffer % 32 == 0
        &&& self.ep0_in_buffer % 32 == 0
        &&& self.queue_heads <= u32::MAX - QUEUE_HEAD_LIST_SIZE
        &&& self.dtd_out <= u32::MAX - 256
        &&& self.dtd_in <= u32::MAX - 256
    }

    pub open spec fn queue_head_addr(self, addr: EndpointAddress) -> u32 {
        (self.queue_heads + addr.slot() * 64) as u32
    }

    pub open spec fn dtd_addr(self, addr: EndpointAddress) -> u32 {
        match addr.way() {
            Direction::Out => (self.dtd_out + addr.number() * 32) as u32,
            Direction::In => (self.dtd_in + addr.number() * 32) as u32,
        }
    }

    pub open spec fn ep0_buffer(self, way: Direction) -> u32 {
        match way {
            Direction::Out => self.ep0_out_buffer,
            Direction::In => self.ep0_in_buffer,
        }
    }

    pub fn queue_head_address(&self, addr: EndpointAddress) -> (r: u32)
        requires
            self.wf(),
            addr.is_real(),
        ensures
            r == self.queue_head_addr(addr),
            r % 32 == 0,
    {
        let slot: usize = queue_head_index(addr.index(), addr.direction());
        self.queue_heads + (slot as u32) * 64
    }

    pub fn dtd_address(&self, addr: EndpointAddress) -> (r: u32)
        requires
            self.wf(),
            addr.is_real(),
        ensures
            r == self.dtd_addr(addr),
            r % 32 == 0,
    {
        match addr.direction() {
            Direction::Out => self.dtd_out + (addr.index() as u32) * 32,
            Direction::In => self.dtd_in + (addr.index() as u32) * 32,
        }
    }

    pub fn ep0_buffer_address(&self, dir: Direction) -> (r: u32)
        ensures
            r == self.ep0_buffer(dir),
    {
        match dir {
            Direction::Out => self.ep0_out_buffer,
            Direction::In => self.ep0_in_buffer,
        }
    }
}

/// Persistent DMA-visible resources for one USB controller instance.
///
/// Descriptors and requested lengths are kept by the place of their endpoint,
/// see [`queue_head_index`].
pub struct UsbResources {
    pub queue_heads: EndpointQueueHeadList,
    pub dtds: [TransferDescriptor; QUEUE_HEAD_COUNT],
    pub requested: [u16; QUEUE_HEAD_COUNT],
    pub ep0_out_buffer: AlignedUsbBuffer<CONTROL_BUFFER_SIZE>,
    pub ep0_in_buffer: AlignedUsbBuffer<CONTROL_BUFFER_SIZE>,
}

pub open spec fn idle_descriptors() -> Seq<TransferDescriptor> {
    Seq::new(QUEUE_HEAD_COUNT as nat, |i: int| TransferDescriptor::initial())
}

pub open spec fn nothing_requested() -> Seq<u16> {
    Seq::new(QUEUE_HEAD_COUNT as nat, |i: int| 0u16)
}

/// The transfer state of all endpoints.
pub struct Transfers {
    pub queue_heads: Seq<EndpointQueueHead>,
    pub dtds: Seq<TransferDescriptor>,
    pub requested: Seq<u16>,
}

impl Transfers {
    /// No endpoint has a transfer.
    pub open spec fn idle() -> Self {
        Transfers {
            queue_heads: idle_queue_heads(),
            dtds: idle_descriptors(),
            requested: nothing_requested(),
        }
    }

    pub open spec fn with_head(self, addr: EndpointAddress, head: EndpointQueueHead) -> Self {
        Transfers { queue_heads: self.queue_heads.update(addr.slot(), head), ..self }
    }

    pub open spec fn with_dtd(self, addr: EndpointAddress, dtd: TransferDescriptor) -> Self {
        Transfers { dtds: self.dtds.update(addr.slot(), dtd), ..self }
    }

    pub open spec fn with_requested(self, addr: EndpointAddress, requested: usize) -> Self {
        Transfers {
            requested: self.requested.update(addr.slot(), (requested % 0x1_0000) as u16),
            ..self
        }
    }

    /// The endpoint without a transfer.
    pub open spec fn cleared(self, addr: EndpointAddress) -> Self {
        self.with_requested(addr, 0).with_dtd(addr, TransferDescriptor::initial()).with_head(
            addr,
            self.queue_heads[addr.slot()].idle(),
        )
    }

    /// Both directions of the control endpoint without a transfer.
    pub open spec fn cleared_ep0(self) -> Self {
        self.cleared(EndpointAddress::of(0, Direction::Out)).cleared(
            EndpointAddress::of(0, Direction::In),
        )
    }
}

impl UsbResources {
    pub open spec fn view(&self) -> Transfers {
        Transfers {
            queue_heads: self.queue_heads@,
            dtds: self.dtds@,
            requested: self.requested@,
        }
    }

    /// The control buffers are those of `other`.
    pub open spec fn same_buffers(&self, other: &Self) -> bool {
        self.ep0_out_buffer@ == other.ep0_out_buffer@ && self.ep0_in_buffer@
            == other.ep0_in_buffer@
    }

    pub fn new() -> (r: Self)
        ensures
            r@ == Transfers::idle(),
            r.ep0_out_buffer@ == Seq::new(CONTROL_BUFFER_SIZE as nat, |i: int| 0u8),
            r.ep0_in_buffer@ == Seq::new(CONTROL_BUFFER_SIZE as nat, |i: int| 0u8),
    {
        let dtds: [TransferDescriptor; QUEUE_HEAD_COUNT] =
            [TransferDescriptor::new();QUEUE_HEAD_COUNT];
        let requested: [u16; QUEUE_HEAD_COUNT] = [0;QUEUE_HEAD_COUNT];
        assert(dtds@ =~= idle_descriptors());
        assert(requested@ =~= nothing_requested());
        UsbResources {
            queue_heads: EndpointQueueHeadList::new(),
            dtds,
            requested,
            ep0_out_buffer: AlignedUsbBuffer::<CONTROL_BUFFER_SIZE>::new(),
            ep0_in_buffer: AlignedUsbBuffer::<CONTROL_BUFFER_SIZE>::new(),
        }
    }

    /// Forgets every transfer. The control buffers stay.
    pub fn reset_state(&mut self)
        ensures
            final(self)@ == Transfers::idle(),
            final(self).same_buffers(old(self)),
    {
        self.queue_heads = EndpointQueueHeadList::new();
        self.dtds = [TransferDescriptor::new();QUEUE_HEAD_COUNT];
        self.requested = [0;QUEUE_HEAD_COUNT];
        assert(self.dtds@ =~= idle_descriptors());
        assert(self.requested@ =~= nothing_requested());
    }

    pub fn requested(&self, addr: EndpointAddress) -> (r: usize)
        requires
            addr.is_real(),
        ensures
            r == self@.requested[addr.slot()],
    {
        self.requested[queue_head_index(addr.index(), addr.direction())] as usize
    }

    /// Notes the length of the transfer of an endpoint, of which the low sixteen bits count.
    pub fn set_requested(&mut self, addr: EndpointAddress, requested: usize)
        requires
            addr.is_real(),
        ensures
            final(self)@ == old(self)@.with_requested(addr, requested),
            final(self).same_buffers(old(self)),
    {
        let index: usize = queue_head_index(addr.index(), addr.direction());
        self.requested[index] = (requested % 0x1_0000) as u16;
    }

    pub fn clear_transfer_state(&mut self, addr: EndpointAddress)
        requires
            addr.is_real(),
        ensures
            final(self)@ == old(self)@.cleared(addr),
            final(self).same_buffers(old(self)),
    {
        self.set_requested(addr, 0);
        let mut dtd = self.dtd(addr);
        dtd.reset();
        self.set_dtd(addr, dtd);
        let mut head = self.queue_heads.endpoint(addr.index(), addr.direction());
        head.reset_overlay();
        self.queue_heads.set_endpoint(addr.index(), addr.direction(), head);
    }

    pub fn clear_ep0_transfer_state(&mut self)
        ensures
            final(self)@ == old(self)@.cleared_ep0(),
            final(self).same_buffers(old(self)),
    {
        self.clear_transfer_state(ep0_addr(Direction::Out));
        self.clear_transfer_state(ep0_addr(Direction::In));
    }

    pub fn dtd(&self, addr: EndpointAddress) -> (r: TransferDescriptor)
        requires
            addr.is_real(),
        ensures
            r == self@.dtds[addr.slot()],
    {
        self.dtds[queue_head_index(addr.index(), addr.direction())]
    }

    /// Replaces a transfer descriptor.
    pub fn set_dtd(&mut self, addr: EndpointAddress, dtd: TransferDescriptor)
        requires
            addr.is_real(),
        ensures
            final(self)@ == old(self)@.with_dtd(addr, dtd),
            final(self).same_buffers(old(self)),
    {
        let index: usize = queue_head_index(addr.index(), addr.direction());
        self.dtds[index] = dtd;
    }

    /// The queue head of an endpoint.
    pub fn queue_head(&self, addr: EndpointAddress) -> (r: EndpointQueueHead)
        requires
            addr.is_real(),
        ensures
            r == self@.queue_heads[addr.slot()],
    {
        self.queue_heads.endpoint(addr.index(), addr.direction())
    }

    /// Replaces a queue head.
    pub fn set_queue_head(&mut self, addr: EndpointAddress, head: EndpointQueueHead)
        requires
            addr.is_real(),
        ensures
            final(self)@ == old(self)@.with_head(addr, head),
            final(self).same_buffers(old(self)),
    {
        self.queue_heads.set_endpoint(addr.index(), addr.direction(), head);
    }
}

/// Clearing the control endpoint leaves it without a length, an active
/// descriptor or an attached transfer, and leaves every other endpoint alone.
pub proof fn cleared_control_endpoint_is_idle(t: Transfers, other: int)
    requires
        t.queue_heads.len() == QUEUE_HEAD_COUNT,
        t.dtds.len() == QUEUE_HEAD_COUNT,
        t.requested.len() == QUEUE_HEAD_COUNT,
        0 <= other < QUEUE_HEAD_COUNT,
    ensures
        ({
            let c = t.cleared_ep0();
            if other < 2 {
                &&& c.requested[other] == 0
                &&& c.dtds[other] == TransferDescriptor::initial()
                &&& c.queue_heads[other] == t.queue_heads[other].idle()
            } else {
                &&& c.requested[other] == t.requested[other]
                &&& c.dtds[other] == t.dtds[other]
                &&& c.queue_heads[other] == t.queue_heads[other]
            }
        }),
{
}

} // verus!
