//! Cache maintenance sequences for buffers shared with DMA engines.
use vstd::prelude::*;

pub mod laws;

verus! {

pub const CACHE_LINE_SIZE: usize = 32;

#[derive(Debug, Clone, Copy, PartialEq, Eq, Structural)]
pub enum AlignmentError {
    /// Addresses and lengths must be multiples of the cache line length.
    Unaligned,
    /// DMA cache maintenance is unavailable.
    Unavailable,
}

/// One cache line operation, at either cache level.
#[derive(Debug, Clone, Copy, PartialEq, Eq, Structural)]
pub enum LineOp {
    L1Invalidate,
    L1Clean,
    L1CleanInvalidate,
    L2Invalidate,
    L2CleanInvalidate,
}

/// One step of a cache maintenance sequence.
#[derive(Debug, Clone, Copy, PartialEq, Eq, Structural)]
pub enum CacheOp {
    /// Data synchronization barrier.
    Dsb,
    /// Order the surrounding accesses for the compiler.
    Fence,
    /// Start an L2 cache sync and wait until it is no longer busy.
    SyncL2,
    /// Perform `op` on the line at physical address `addr`.
    Line { op: LineOp, addr: u32 },
}

/// The first address behind the range, saturating at the top of the address space.
pub open spec fn range_end(addr: u32, len: int) -> int {
    if addr + len > u32::MAX {
        u32::MAX as int
    } else {
        addr + len
    }
}

/// The number of cache lines that start in `[addr, end)` for a line-aligned `addr`.
pub open spec fn line_count(addr: int, end: int) -> int {
    (end - addr + 31) / 32
}

/// `op` on every line of `[addr, end)`, in ascending order.
pub open spec fn line_pass(op: LineOp, addr: u32, end: int) -> Seq<CacheOp> {
    Seq::new(
        line_count(addr as int, end) as nat,
        |i: int| CacheOp::Line { op, addr: (addr + 32 * i) as u32 },
    )
}

/// Why a range is refused, if it is: availability is tested before alignment.
pub open spec fn range_error(ready: bool, addr: u32, len: usize) -> Option<AlignmentError> {
    if !ready {
        Some(AlignmentError::Unavailable)
    } else if addr % 32 != 0 || len % 32 != 0 {
        Some(AlignmentError::Unaligned)
    } else {
        None
    }
}

/// Tracks whether the L2 cache has been set up for DMA-safe maintenance.
#[derive(Debug, Clone, Copy, PartialEq, Eq, Structural)]
pub struct DmaCache {
    pub ready: bool,
}

impl DmaCache {
    pub fn new() -> (r: Self)
        ensures
            !r.ready,
    {
        DmaCache { ready: false }
    }

    pub fn mark_dma_cache_ready(&mut self)
        ensures
            final(self).ready,
    {
        self.ready = true;
    }

    pub fn dma_cache_ready(&self) -> (r: bool)
        ensures
            r == self.ready,
    {
        self.ready
    }
}

/// Whether a range is refused, and why.
pub fn check_range(ready: bool, addr: u32, len: usize) -> (r: Option<AlignmentError>)
    ensures
        r == range_error(ready, addr, len),
{
    if !ready {
        return Some(AlignmentError::Unavailable);
    }
    if addr % 32 != 0 || len % CACHE_LINE_SIZE != 0 {
        return Some(AlignmentError::Unaligned);
    }
    None
}

fn end_of_range(addr: u32, len: usize) -> (end: u32)
    requires
        len <= u32::MAX,
    ensures
        end == range_end(addr, len as int),
{
    let len32: u32 = len as u32;
    addr.saturating_add(len32)
}

/// Appends `op` for every line of `[addr, end)`.
fn push_line_pass(ops: &mut Vec<CacheOp>, op: LineOp, addr: u32, end: u32)
    requires
        addr <= end,
        addr % 32 == 0,
    ensures
        final(ops)@ == old(ops)@ + line_pass(op, addr, end as int),
{
    let ghost before = ops@;
    let mut current: u32 = addr;
    let ghost mut n: int = 0;
    assert(ops@ =~= before + line_pass(op, addr, end as int).take(0));
    while current < end
        invariant
            addr <= end,
            addr % 32 == 0,
            0 <= n <= line_count(addr as int, end as int),
            current < end ==> current == addr + 32 * n,
            current >= end ==> n == line_count(addr as int, end as int),
            ops@ == before + line_pass(op, addr, end as int).take(n),
        decreases line_count(addr as int, end as int) - n,
    {
        let ghost pass = line_pass(op, addr, end as int);
        ops.push(CacheOp::Line { op, addr: current });
        assert(pass[n] == (CacheOp::Line { op, addr: current }));
        assert(pass.take(n + 1) =~= pass.take(n).push(pass[n]));
        assert(ops@ =~= before + pass.take(n + 1));
        proof {
            n = n + 1;
        }
        current = current.saturating_add(CACHE_LINE_SIZE as u32);
    }
    assert(line_pass(op, addr, end as int).take(n) =~= line_pass(op, addr, end as int));
}

/// The sequence that invalidates a range, outer cache first.
///
/// The outer lines have to go before the inner ones: otherwise an inner miss
/// could refill from a stale outer line.
pub open spec fn invalidate_sequence(addr: u32, len: usize) -> Seq<CacheOp> {
    let end = range_end(addr, len as int);
    seq![CacheOp::Dsb] + line_pass(LineOp::L2Invalidate, addr, end) + seq![
        CacheOp::SyncL2,
        CacheOp::Fence,
    ] + line_pass(LineOp::L1Invalidate, addr, end) + seq![CacheOp::Dsb]
}

/// The sequence that cleans a range. The lines are invalidated with it, in both caches.
pub open spec fn clean_sequence(addr: u32, len: usize) -> Seq<CacheOp> {
    clean_invalidate_sequence(addr, len)
}

/// The sequence that cleans and invalidates a range: inner cache cleaned, outer
/// cache cleaned and invalidated, then the inner cache cleaned and invalidated.
pub open spec fn clean_invalidate_sequence(addr: u32, len: usize) -> Seq<CacheOp> {
    let end = range_end(addr, len as int);
    seq![CacheOp::Dsb] + line_pass(LineOp::L1Clean, addr, end) + seq![CacheOp::Dsb] + line_pass(
        LineOp::L2CleanInvalidate,
        addr,
        end,
    ) + seq![CacheOp::SyncL2, CacheOp::Fence] + line_pass(LineOp::L1CleanInvalidate, addr, end)
        + seq![CacheOp::Dsb]
}

/// Invalidate an address range in both caches.
///
/// The address and the length must both be multiples of the cache line length.
pub fn invalidate_data_cache_range(ready: bool, addr: u32, len: usize) -> (r: Result<
    Vec<CacheOp>,
    AlignmentError,
>)
    requires
        len <= u32::MAX,
    ensures
        match range_error(ready, addr, len) {
            Some(e) => r == Err::<Vec<CacheOp>, AlignmentError>(e),
            None => r is Ok && r->Ok_0@ == invalidate_sequence(addr, len),
        },
{
    if let Some(e) = check_range(ready, addr, len) {
        return Err(e);
    }
    let end: u32 = end_of_range(addr, len);
    let mut ops: Vec<CacheOp> = Vec::new();
    ops.push(CacheOp::Dsb);
    push_line_pass(&mut ops, LineOp::L2Invalidate, addr, end);
    ops.push(CacheOp::SyncL2);
    ops.push(CacheOp::Fence);
    push_line_pass(&mut ops, LineOp::L1Invalidate, addr, end);
    ops.push(CacheOp::Dsb);
    assert(ops@ =~= invalidate_sequence(addr, len));
    Ok(ops)
}

/// Clean an address range. The range is cleaned and invalidated in both caches.
///
/// The address and the length must both be multiples of the cache line length.
pub fn clean_data_cache_range(ready: bool, addr: u32, len: usize) -> (r: Result<
    Vec<CacheOp>,
    AlignmentError,
>)
    requires
        len <= u32::MAX,
    ensures
        match range_error(ready, addr, len) {
            Some(e) => r == Err::<Vec<CacheOp>, AlignmentError>(e),
            None => r is Ok && r->Ok_0@ == clean_sequence(addr, len),
        },
{
    clean_and_invalidate_data_cache_range(ready, addr, len)
}

/// Clean and invalidate an address range in both caches.
pub fn clean_and_invalidate_data_cache_range(ready: bool, addr: u32, len: usize) -> (r: Result<
    Vec<CacheOp>,
    AlignmentError,
>)
    requires
        len <= u32::MAX,
    ensures
        match range_error(ready, addr, len) {
            Some(e) => r == Err::<Vec<CacheOp>, AlignmentError>(e),
            None => r is Ok && r->Ok_0@ == clean_invalidate_sequence(addr, len),
        },
{
    if let Some(e) = check_range(ready, addr, len) {
        return Err(e);
    }
    let end: u32 = end_of_range(addr, len);
    let mut ops: Vec<CacheOp> = Vec::new();
    ops.push(CacheOp::Dsb);
    push_line_pass(&mut ops, LineOp::L1Clean, addr, end);
    ops.push(CacheOp::Dsb);
    push_line_pass(&mut ops, LineOp::L2CleanInvalidate, addr, end);
    ops.push(CacheOp::SyncL2);
    ops.push(CacheOp::Fence);
    push_line_pass(&mut ops, LineOp::L1CleanInvalidate, addr, end);
    ops.push(CacheOp::Dsb);
    assert(ops@ =~= clean_invalidate_sequence(addr, len));
    Ok(ops)
}

/// A pass over an aligned range touches the line of every byte in the range,
/// and no line that starts outside it.
pub proof fn line_pass_covers_exactly_the_range(op: LineOp, addr: u32, len: usize, byte: int)
    requires
        addr % 32 == 0,
        len % 32 == 0,
        addr + len <= u32::MAX,
    ensures
        (addr <= byte < addr + len) <==> exists|i: int|
            0 <= i < line_pass(op, addr, range_end(addr, len as int)).len()
                && #[trigger] line_pass(op, addr, range_end(addr, len as int))[i] == (
            CacheOp::Line { op, addr: (byte - byte % 32) as u32 }) && 0 <= byte <= u32::MAX,
{
    let end = range_end(addr, len as int);
    let pass = line_pass(op, addr, end);
    assert(pass.len() == len / 32);
    if addr <= byte < addr + len {
        let i = (byte - addr) / 32;
        assert(byte - byte % 32 == addr + 32 * i);
        assert(0 <= i < pass.len());
        assert(pass[i] == (CacheOp::Line { op, addr: (byte - byte % 32) as u32 }));
    }
    if exists|i: int|
        0 <= i < pass.len() && #[trigger] pass[i] == (
        CacheOp::Line { op, addr: (byte - byte % 32) as u32 }) && 0 <= byte <= u32::MAX {
        let i = choose|i: int|
            0 <= i < pass.len() && #[trigger] pass[i] == (
            CacheOp::Line { op, addr: (byte - byte % 32) as u32 }) && 0 <= byte <= u32::MAX;
        assert(addr + 32 * i <= u32::MAX);
        assert((addr + 32 * i) as u32 == (byte - byte % 32) as u32);
        assert(addr + 32 * i == byte - byte % 32);
    }
}

/// Cleaning an aligned range cleans and invalidates the line of every byte in
/// the range in both caches, and touches no line that starts outside it.
pub proof fn cleaned_range_leaves_both_caches(addr: u32, len: usize, line: u32, op: LineOp)
    requires
        addr % 32 == 0,
        len % 32 == 0,
        addr + len <= u32::MAX,
    ensures
        line % 32 == 0 && addr <= line < addr + len ==> {
            &&& clean_sequence(addr, len).contains(
                CacheOp::Line { op: LineOp::L2CleanInvalidate, addr: line },
            )
            &&& clean_sequence(addr, len).contains(
                CacheOp::Line { op: LineOp::L1CleanInvalidate, addr: line },
            )
        },
        clean_sequence(addr, len).contains(CacheOp::Line { op, addr: line }) ==> line % 32 == 0
            && addr <= line < addr + len,
{
    let s = clean_sequence(addr, len);
    let end = range_end(addr, len as int);
    let n = line_count(addr as int, end);
    assert(n == len / 32);
    let inner_clean = line_pass(LineOp::L1Clean, addr, end);
    let outer = line_pass(LineOp::L2CleanInvalidate, addr, end);
    let inner = line_pass(LineOp::L1CleanInvalidate, addr, end);
    if line % 32 == 0 && addr <= line < addr + len {
        let i = (line - addr) / 32;
        assert(line == addr + 32 * i);
        assert(0 <= i < n);
        assert(outer[i] == (CacheOp::Line { op: LineOp::L2CleanInvalidate, addr: line }));
        assert(inner[i] == (CacheOp::Line { op: LineOp::L1CleanInvalidate, addr: line }));
        assert(s[n + 2 + i] == outer[i]);
        assert(s[2 * n + 4 + i] == inner[i]);
    }
    let step = CacheOp::Line { op, addr: line };
    if s.contains(step) {
        let k = choose|k: int| 0 <= k < s.len() && s[k] == step;
        let i = if k <= n {
            assert(1 <= k && inner_clean[k - 1] == step);
            k - 1
        } else if k < 2 * n + 2 {
            assert(n + 2 <= k && outer[k - n - 2] == step);
            k - n - 2
        } else {
            assert(2 * n + 4 <= k < 3 * n + 4 && inner[k - 2 * n - 4] == step);
            k - 2 * n - 4
        };
        assert(0 <= i < n);
        assert(line == addr + 32 * i);
        assert((addr + 32 * i) % 32 == 0);
    }
}

} // verus!
