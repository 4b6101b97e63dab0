//! Cache maintenance around DMA transfers.
use vstd::prelude::*;

use crate::cache::{
    self, clean_and_invalidate_data_cache_range, clean_data_cache_range,
    invalidate_data_cache_range, AlignmentError, CacheOp, CACHE_LINE_SIZE,
};

verus! {

/// Cache-line aligned wrapper for controller-owned state that DMA can see.
#[derive(Debug)]
pub struct CacheAligned<T>(pub T);

impl<T> CacheAligned<T> {
    pub fn new(inner: T) -> (r: Self)
        ensures
            r.0 == inner,
    {
        CacheAligned(inner)
    }
}

/// `addr` rounded down to a cache line.
pub open spec fn line_floor(addr: int) -> int {
    addr - addr % 32
}

/// `addr` rounded up to a cache line.
pub open spec fn line_ceil(addr: int) -> int {
    line_floor(addr + 31)
}

/// The cache lines that a non-empty buffer touches: start and length.
pub open spec fn maintenance_range(addr: int, len: int) -> (int, int) {
    if len == 0 {
        (addr, 0)
    } else {
        (line_floor(addr), line_ceil(addr + len) - line_floor(addr))
    }
}

/// The buffer, rounded up to whole lines, ends inside the 32-bit address space.
pub open spec fn addressable(addr: int, len: int) -> bool {
    0 <= addr <= u32::MAX && 0 <= len && (len != 0 ==> addr + len + 31 <= u32::MAX)
}

/// The start and length of the cache lines that a buffer touches.
///
/// An empty buffer touches none: its address comes back unchanged.
pub fn cache_maintenance_range(addr: usize, len: usize) -> (r: (u32, usize))
    requires
        addressable(addr as int, len as int),
    ensures
        r.0 == maintenance_range(addr as int, len as int).0,
        r.1 == maintenance_range(addr as int, len as int).1,
        len != 0 ==> r.0 % 32 == 0 && r.1 % 32 == 0 && r.1 >= 32,
        len == 0 ==> r.1 == 0,
{
    if len == 0 {
        return (addr as u32, 0);
    }
    let start: usize = addr - addr % CACHE_LINE_SIZE;
    let last: usize = addr + len + (CACHE_LINE_SIZE - 1);
    let end: usize = last - last % CACHE_LINE_SIZE;
    (start as u32, end - start)
}

/// The maintained lines contain the buffer, start and end on line boundaries,
/// and are no more than it takes.
pub proof fn maintenance_range_is_least_cover(addr: int, len: int)
    requires
        addr >= 0,
        len > 0,
    ensures
        ({
            let (start, span) = maintenance_range(addr, len);
            &&& start % 32 == 0
            &&& span % 32 == 0
            &&& start <= addr
            &&& addr + len <= start + span
            &&& addr < start + 32
            &&& start + span - 32 < addr + len
        }),
{
}

/// What a maintenance of the lines of a buffer amounts to: nothing for an empty
/// buffer, a refusal while maintenance is unavailable, else `sequence`.
pub open spec fn maintained(
    r: Result<Vec<CacheOp>, AlignmentError>,
    ready: bool,
    len: usize,
    sequence: Seq<CacheOp>,
) -> bool {
    if len == 0 {
        r is Ok && r->Ok_0@ == Seq::<CacheOp>::empty()
    } else if !ready {
        r == Err::<Vec<CacheOp>, AlignmentError>(AlignmentError::Unavailable)
    } else {
        r is Ok && r->Ok_0@ == sequence
    }
}

pub open spec fn range_start(addr: usize, len: usize) -> u32 {
    maintenance_range(addr as int, len as int).0 as u32
}

pub open spec fn range_len(addr: usize, len: usize) -> usize {
    maintenance_range(addr as int, len as int).1 as usize
}

/// Lets a device read the object of `len` bytes at `addr`.
pub fn prepare_ref_for_device_read(ready: bool, addr: usize, len: usize) -> (r: Result<
    Vec<CacheOp>,
    AlignmentError,
>)
    requires
        addressable(addr as int, len as int),
    ensures
        maintained(
            r,
            ready,
            len,
            cache::clean_sequence(range_start(addr, len), range_len(addr, len)),
        ),
{
    prepare_slice_for_device_read(ready, addr, len)
}

/// Lets a device read the slice of `len` bytes at `addr`.
pub fn prepare_slice_for_device_read(ready: bool, addr: usize, len: usize) -> (r: Result<
    Vec<CacheOp>,
    AlignmentError,
>)
    requires
        addressable(addr as int, len as int),
    ensures
        maintained(
            r,
            ready,
            len,
            cache::clean_sequence(range_start(addr, len), range_len(addr, len)),
        ),
{
    let (start, span): (u32, usize) = cache_maintenance_range(addr, len);
    if span == 0 {
        return Ok(Vec::new());
    }
    clean_data_cache_range(ready, start, span)
}

/// Lets a device write the slice of `len` bytes at `addr`.
pub fn prepare_slice_for_device_write(ready: bool, addr: usize, len: usize) -> (r: Result<
    Vec<CacheOp>,
    AlignmentError,
>)
    requires
        addressable(addr as int, len as int),
    ensures
        maintained(
            r,
            ready,
            len,
            cache::clean_invalidate_sequence(range_start(addr, len), range_len(addr, len)),
        ),
{
    let (start, span): (u32, usize) = cache_maintenance_range(addr, len);
    if span == 0 {
        return Ok(Vec::new());
    }
    clean_and_invalidate_data_cache_range(ready, start, span)
}

/// Makes what a device wrote to the slice of `len` bytes at `addr` visible.
pub fn complete_slice_from_device_write(ready: bool, addr: usize, len: usize) -> (r: Result<
    Vec<CacheOp>,
    AlignmentError,
>)
    requires
        addressable(addr as int, len as int),
    ensures
        maintained(
            r,
            ready,
            len,
            cache::invalidate_sequence(range_start(addr, len), range_len(addr, len)),
        ),
{
    let (start, span): (u32, usize) = cache_maintenance_range(addr, len);
    if span == 0 {
        return Ok(Vec::new());
    }
    invalidate_data_cache_range(ready, start, span)
}

} // verus!
