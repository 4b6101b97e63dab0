//! Descriptor tables of the SD host controller's DMA engine.
use vstd::prelude::*;

use crate::arith;
use crate::hal::dma::CacheAligned;

verus! {

pub const ADMA2_DESCRIPTOR_COUNT: usize = 32;

pub const DESC_MAX_LENGTH: usize = 65_536;

pub const ATTR_TRANSFER: u16 = 0x20;

pub const ATTR_END: u16 = 0x02;

pub const ATTR_VALID: u16 = 0x01;

/// The longest transfer that one table describes.
pub const MAX_TRANSFER_BYTES: usize = ADMA2_DESCRIPTOR_COUNT * DESC_MAX_LENGTH;

/// Size of a table in memory: eight bytes per descriptor.
pub const TABLE_BYTES: usize = ADMA2_DESCRIPTOR_COUNT * 8;

#[derive(Debug, Clone, Copy, PartialEq, Eq, Structural)]
pub struct Adma2Descriptor32 {
    pub attribute: u16,
    pub length: u16,
    pub address: u32,
}

/// An unused descriptor.
pub open spec fn unused() -> Adma2Descriptor32 {
    Adma2Descriptor32 { attribute: 0, length: 0, address: 0 }
}

/// A length field of zero stands for the maximum length.
pub open spec fn encoded_length(len: int) -> u16 {
    if len == DESC_MAX_LENGTH {
        0
    } else {
        len as u16
    }
}

/// The descriptor of `len` bytes at `address`, the last one of a table for `end`.
pub open spec fn transfer_descriptor(address: int, len: int, end: bool) -> Adma2Descriptor32 {
    Adma2Descriptor32 {
        attribute: ATTR_TRANSFER | ATTR_VALID | if end {
            ATTR_END
        } else {
            0
        },
        length: encoded_length(len),
        address: address as u32,
    }
}

/// How many descriptors `len` bytes take.
pub open spec fn descriptor_count(len: int) -> int {
    arith::ceil_div(len, DESC_MAX_LENGTH as int)
}

/// Where chunk `i` starts in the buffer.
pub open spec fn chunk_start(i: int) -> int {
    i * DESC_MAX_LENGTH
}

/// The length of chunk `i` of a buffer of `len` bytes.
pub open spec fn chunk_len(len: int, i: int) -> int {
    if len - chunk_start(i) < DESC_MAX_LENGTH {
        len - chunk_start(i)
    } else {
        DESC_MAX_LENGTH as int
    }
}

/// Entry `i` of the table for `len` bytes at `buffer_addr`.
pub open spec fn table_entry(buffer_addr: u32, len: int, i: int) -> Adma2Descriptor32 {
    if i < descriptor_count(len) {
        transfer_descriptor(
            buffer_addr + chunk_start(i),
            chunk_len(len, i),
            i + 1 == descriptor_count(len),
        )
    } else {
        unused()
    }
}

impl Adma2Descriptor32 {
    pub fn new() -> (r: Self)
        ensures
            r == unused(),
    {
        Adma2Descriptor32 { attribute: 0, length: 0, address: 0 }
    }

    pub fn configure(&mut self, address: u32, len: usize, end: bool)
        requires
            len <= DESC_MAX_LENGTH,
        ensures
            *final(self) == transfer_descriptor(address as int, len as int, end),
    {
        self.address = address;
        self.length = if len == DESC_MAX_LENGTH {
            0
        } else {
            len as u16
        };
        self.attribute = ATTR_TRANSFER | ATTR_VALID | if end {
            ATTR_END
        } else {
            0
        };
    }
}

impl Default for Adma2Descriptor32 {
    fn default() -> (r: Self)
        ensures
            r == unused(),
    {
        Self::new()
    }
}

#[derive(Debug, Clone, Copy)]
pub struct Adma2DescriptorTable {
    pub entries: [Adma2Descriptor32; ADMA2_DESCRIPTOR_COUNT],
}

impl Adma2DescriptorTable {
    pub open spec fn view(&self) -> Seq<Adma2Descriptor32> {
        self.entries@
    }

    /// Every entry describes its chunk of the buffer.
    pub open spec fn describes(&self, buffer_addr: u32, len: int) -> bool {
        forall|i: int|
            0 <= i < ADMA2_DESCRIPTOR_COUNT ==> #[trigger] self@[i] == table_entry(
                buffer_addr,
                len,
                i,
            )
    }

    pub fn new() -> (r: Self)
        ensures
            forall|i: int| 0 <= i < ADMA2_DESCRIPTOR_COUNT ==> #[trigger] r@[i] == unused(),
    {
        let empty = Adma2Descriptor32::new();
        Adma2DescriptorTable { entries: [empty;ADMA2_DESCRIPTOR_COUNT] }
    }

    /// Describes `len` bytes at `buffer_addr`. Unused entries are cleared.
    pub fn configure(&mut self, buffer_addr: u32, len: usize)
        requires
            len <= MAX_TRANSFER_BYTES,
            buffer_addr + len <= u32::MAX + 1,
        ensures
            final(self).describes(buffer_addr, len as int),
    {
        let empty = Adma2Descriptor32::new();
        let mut entries: [Adma2Descriptor32; ADMA2_DESCRIPTOR_COUNT] =
            [empty;ADMA2_DESCRIPTOR_COUNT];
        let count: usize = arith::div_ceil_usize(len, DESC_MAX_LENGTH);
        proof {
            arith::ceil_div_is_least_cover(len as int, DESC_MAX_LENGTH as int);
        }
        let mut desc_idx: usize = 0;
        while desc_idx < count
            invariant
                desc_idx <= count <= ADMA2_DESCRIPTOR_COUNT,
                count == descriptor_count(len as int),
                len > 0 ==> (count - 1) * DESC_MAX_LENGTH < len,
                len <= count * DESC_MAX_LENGTH,
                len == 0 ==> count == 0,
                buffer_addr + len <= u32::MAX + 1,
                entries@.len() == ADMA2_DESCRIPTOR_COUNT,
                forall|i: int|
                    0 <= i < desc_idx ==> #[trigger] entries@[i] == table_entry(
                        buffer_addr,
                        len as int,
                        i,
                    ),
                forall|i: int|
                    desc_idx <= i < ADMA2_DESCRIPTOR_COUNT ==> #[trigger] entries@[i] == unused(),
            decreases count - desc_idx,
        {
            let offset: usize = desc_idx * DESC_MAX_LENGTH;
            let rest: usize = len - offset;
            let desc_len: usize = if rest < DESC_MAX_LENGTH {
                rest
            } else {
                DESC_MAX_LENGTH
            };
            let mut desc = Adma2Descriptor32::new();
            desc.configure(buffer_addr + offset as u32, desc_len, desc_idx + 1 == count);
            entries[desc_idx] = desc;
            desc_idx += 1;
        }
        self.entries = entries;
    }

    /// The first entry, whose address the controller is given.
    pub fn as_ptr(&self) -> (r: &Adma2Descriptor32)
        ensures
            *r == self@[0],
    {
        &self.entries[0]
    }
}

pub type CacheAlignedAdma2DescriptorTable = CacheAligned<Adma2DescriptorTable>;

/// The chunks of a transfer tile the buffer: the first starts at its beginning,
/// each next one where the one before ends, and the last ends at its end. None
/// is empty or longer than a descriptor can describe.
pub proof fn chunks_tile_the_buffer(len: int)
    requires
        0 < len <= MAX_TRANSFER_BYTES,
    ensures
        1 <= descriptor_count(len) <= ADMA2_DESCRIPTOR_COUNT,
        chunk_start(0) == 0,
        forall|i: int|
            0 <= i < descriptor_count(len) - 1 ==> #[trigger] chunk_start(i) + chunk_len(len, i)
                == chunk_start(i + 1),
        chunk_start(descriptor_count(len) - 1) + chunk_len(len, descriptor_count(len) - 1) == len,
        forall|i: int|
            0 <= i < descriptor_count(len) ==> 0 < #[trigger] chunk_len(len, i) <= DESC_MAX_LENGTH,
{
    arith::ceil_div_is_least_cover(len, DESC_MAX_LENGTH as int);
}

/// The length field of a descriptor gives the length of its chunk back.
pub proof fn length_field_decodes(len: int)
    requires
        0 < len <= DESC_MAX_LENGTH,
    ensures
        (if encoded_length(len) == 0 {
            DESC_MAX_LENGTH as int
        } else {
            encoded_length(len) as int
        }) == len,
{
}

proof fn lemma_end_attribute_is_distinct()
    by (bit_vector)
    ensures
        (0x20u16 | 0x01u16 | 0x02u16) & 0x02u16 == 0x02u16,
        (0x20u16 | 0x01u16 | 0u16) & 0x02u16 == 0,
        (0x20u16 | 0x01u16 | 0x02u16) == 0x23u16,
        (0x20u16 | 0x01u16 | 0u16) == 0x21u16,
{
}

/// Exactly one descriptor of a non-empty transfer is marked as the end: the last one.
pub proof fn only_the_last_descriptor_ends_the_table(buffer_addr: u32, len: int, i: int)
    requires
        0 < len <= MAX_TRANSFER_BYTES,
        0 <= i < descriptor_count(len),
    ensures
        (table_entry(buffer_addr, len, i).attribute & ATTR_END == ATTR_END) <==> i + 1
            == descriptor_count(len),
{
    lemma_end_attribute_is_distinct();
}

/// Each descriptor moves the next 64 kB of the buffer or what is left of them, where a length
/// of zero stands for all of them. It is valid, and the last one ends the table. What follows
/// is not valid.
pub proof fn descriptors_move_the_buffer_in_order(buffer_addr: u32, len: int, i: int)
    requires
        0 < len <= MAX_TRANSFER_BYTES,
        0 <= i < ADMA2_DESCRIPTOR_COUNT,
        buffer_addr + len <= u32::MAX,
    ensures
        ({
            let entry = table_entry(buffer_addr, len, i);
            let moved: int = if entry.length == 0 {
                0x1_0000
            } else {
                entry.length as int
            };
            let left = len - i * 0x1_0000;
            if left > 0 {
                &&& entry.address == buffer_addr + i * 0x1_0000
                &&& moved == (if left < 0x1_0000 {
                    left
                } else {
                    0x1_0000
                })
                &&& entry.attribute == (if left <= 0x1_0000 {
                    0x23u16
                } else {
                    0x21u16
                })
            } else {
                entry.attribute == 0
            }
        }),
{
    arith::ceil_div_is_least_cover(len, DESC_MAX_LENGTH as int);
    lemma_end_attribute_is_distinct();
}

} // verus!
