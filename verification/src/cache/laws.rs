//! What maintenance of a range does to the lines of the two caches.
use vstd::prelude::*;

use super::{
    clean_invalidate_sequence, clean_sequence, invalidate_sequence, line_count, line_pass,
    range_end, CacheOp, LineOp,
};

verus! {

/// One line of memory and what the caches hold of it.
pub struct Line {
    /// The address of the line.
    pub at: u32,
    /// What the inner cache holds, and whether it was written there.
    pub inner: Option<(int, bool)>,
    /// What the outer cache holds.
    pub outer: Option<int>,
    pub memory: int,
}

impl Line {
    /// What a processor reads.
    pub open spec fn value(self) -> int {
        match (self.inner, self.outer) {
            (Some((v, _)), _) => v,
            (None, Some(v)) => v,
            (None, None) => self.memory,
        }
    }

    /// What was not written in the inner cache is as the outer one or the memory has it.
    pub open spec fn wf(self) -> bool {
        match self.inner {
            Some((v, written)) => !written ==> v == (match self.outer {
                Some(w) => w,
                None => self.memory,
            }),
            None => true,
        }
    }

    pub open spec fn after_line_op(self, op: LineOp) -> Line {
        let cleaned = match self.inner {
            Some((v, true)) => Line { inner: Some((v, false)), outer: Some(v), ..self },
            _ => self,
        };
        match op {
            LineOp::L1Clean => cleaned,
            LineOp::L1CleanInvalidate => Line { inner: None, ..cleaned },
            LineOp::L1Invalidate => Line { inner: None, ..self },
            LineOp::L2CleanInvalidate => match self.outer {
                Some(v) => Line { outer: None, memory: v, ..self },
                None => self,
            },
            LineOp::L2Invalidate => Line { outer: None, ..self },
        }
    }

    pub open spec fn after(self, op: CacheOp) -> Line {
        match op {
            CacheOp::Line { op, addr } => if addr == self.at {
                self.after_line_op(op)
            } else {
                self
            },
            _ => self,
        }
    }

    /// The line after the first `n` operations.
    pub open spec fn after_first(self, ops: Seq<CacheOp>, n: int) -> Line
        decreases n,
    {
        if n <= 0 {
            self
        } else {
            self.after_first(ops, n - 1).after(ops[n - 1])
        }
    }

    pub open spec fn after_all(self, ops: Seq<CacheOp>) -> Line {
        self.after_first(ops, ops.len() as int)
    }
}

proof fn lemma_prefix(l: Line, a: Seq<CacheOp>, b: Seq<CacheOp>, n: int)
    requires
        0 <= n <= a.len(),
    ensures
        l.after_first(a + b, n) == l.after_first(a, n),
    decreases n,
{
    if n > 0 {
        lemma_prefix(l, a, b, n - 1);
        assert((a + b)[n - 1] == a[n - 1]);
    }
}

proof fn lemma_in_a_row(l: Line, a: Seq<CacheOp>, b: Seq<CacheOp>, n: int)
    requires
        0 <= n <= b.len(),
    ensures
        l.after_first(a + b, a.len() as int + n) == l.after_all(a).after_first(b, n),
    decreases n,
{
    if n == 0 {
        lemma_prefix(l, a, b, a.len() as int);
    } else {
        lemma_in_a_row(l, a, b, n - 1);
        assert((a + b)[a.len() as int + n - 1] == b[n - 1]);
    }
}

/// Two sequences in a row do what the second does after the first.
proof fn lemma_concat(l: Line, a: Seq<CacheOp>, b: Seq<CacheOp>)
    ensures
        l.after_all(a + b) == l.after_all(a).after_all(b),
{
    lemma_in_a_row(l, a, b, b.len() as int);
    assert((a + b).len() == a.len() + b.len());
}

/// Barriers leave every line alone.
proof fn lemma_barriers(l: Line, ops: Seq<CacheOp>, n: int)
    requires
        0 <= n <= ops.len(),
        forall|i: int| 0 <= i < ops.len() ==> !(#[trigger] ops[i] is Line),
    ensures
        l.after_first(ops, n) == l,
    decreases n,
{
    if n > 0 {
        lemma_barriers(l, ops, n - 1);
    }
}

/// The first `n` operations of a pass act once on the lines that they reach and on no other.
proof fn lemma_pass_so_far(l: Line, op: LineOp, addr: u32, end: int, n: int)
    requires
        addr % 32 == 0,
        l.at % 32 == 0,
        addr <= end <= u32::MAX,
        0 <= n <= line_count(addr as int, end),
    ensures
        l.after_first(line_pass(op, addr, end), n) == (if addr <= l.at < addr + 32 * n {
            l.after_line_op(op)
        } else {
            l
        }),
    decreases n,
{
    if n > 0 {
        lemma_pass_so_far(l, op, addr, end, n - 1);
        let ops = line_pass(op, addr, end);
        let a = addr + 32 * (n - 1);
        assert(a < end);
        assert(ops[n - 1] == (CacheOp::Line { op, addr: a as u32 }));
        assert(addr <= l.at < addr + 32 * n <==> addr <= l.at < addr + 32 * (n - 1) || l.at == a);
    }
}

proof fn lemma_pass(l: Line, op: LineOp, addr: u32, end: int)
    requires
        addr % 32 == 0,
        l.at % 32 == 0,
        addr <= end <= u32::MAX,
    ensures
        l.after_all(line_pass(op, addr, end)) == (if addr <= l.at < end {
            l.after_line_op(op)
        } else {
            l
        }),
{
    let count = line_count(addr as int, end);
    lemma_pass_so_far(l, op, addr, end, count);
    assert(addr <= l.at < addr + 32 * count <==> addr <= l.at < end);
}

/// Cleaning a range brings what a processor would read of each of its lines to memory, and
/// leaves neither cache holding them. No other line is touched.
pub proof fn cleaned_lines_reach_memory(l: Line, addr: u32, len: usize)
    requires
        addr % 32 == 0,
        l.at % 32 == 0,
        l.wf(),
        addr + len <= u32::MAX,
    ensures
        ({
            let after = l.after_all(clean_sequence(addr, len));
            if addr <= l.at < addr + len {
                after == (Line { inner: None, outer: None, memory: l.value(), ..l })
            } else {
                after == l
            }
        }),
        l.after_all(clean_invalidate_sequence(addr, len)) == l.after_all(clean_sequence(addr, len)),
{
    let end = range_end(addr, len as int);
    let dsb = seq![CacheOp::Dsb];
    let sync = seq![CacheOp::SyncL2, CacheOp::Fence];
    let p1 = line_pass(LineOp::L1Clean, addr, end);
    let p2 = line_pass(LineOp::L2CleanInvalidate, addr, end);
    let p3 = line_pass(LineOp::L1CleanInvalidate, addr, end);
    assert(clean_invalidate_sequence(addr, len) =~= dsb + p1 + dsb + p2 + sync + p3 + dsb);
    lemma_concat(l, dsb + p1 + dsb + p2 + sync + p3, dsb);
    lemma_concat(l, dsb + p1 + dsb + p2 + sync, p3);
    lemma_concat(l, dsb + p1 + dsb + p2, sync);
    lemma_concat(l, dsb + p1 + dsb, p2);
    lemma_concat(l, dsb + p1, dsb);
    lemma_concat(l, dsb, p1);
    lemma_barriers(l, dsb, 1);
    lemma_pass(l, LineOp::L1Clean, addr, end);
    let l1 = l.after_all(p1);
    lemma_barriers(l1, dsb, 1);
    lemma_pass(l1, LineOp::L2CleanInvalidate, addr, end);
    let l2 = l1.after_all(p2);
    lemma_barriers(l2, sync, 2);
    lemma_pass(l2, LineOp::L1CleanInvalidate, addr, end);
    lemma_barriers(l2.after_all(p3), dsb, 1);
}

/// Invalidating a range leaves neither cache holding its lines, and memory as it is: what is
/// read of them next is what memory holds. The outer cache goes first, so that the inner one
/// cannot be filled from it again. No other line is touched.
pub proof fn invalidated_lines_are_read_from_memory(l: Line, addr: u32, len: usize)
    requires
        addr % 32 == 0,
        l.at % 32 == 0,
        addr + len <= u32::MAX,
    ensures
        ({
            let after = l.after_all(invalidate_sequence(addr, len));
            if addr <= l.at < addr + len {
                after == (Line { inner: None, outer: None, ..l }) && after.value() == l.memory
            } else {
                after == l
            }
        }),
        forall|i: int, j: int|
            0 <= i < invalidate_sequence(addr, len).len() && 0 <= j < invalidate_sequence(
                addr,
                len,
            ).len() && (#[trigger] invalidate_sequence(addr, len)[i] matches CacheOp::Line {
                op: LineOp::L2Invalidate,
                ..
            }) && (#[trigger] invalidate_sequence(addr, len)[j] matches CacheOp::Line {
                op: LineOp::L1Invalidate,
                ..
            }) ==> i < j,
{
    let end = range_end(addr, len as int);
    let dsb = seq![CacheOp::Dsb];
    let sync = seq![CacheOp::SyncL2, CacheOp::Fence];
    let p1 = line_pass(LineOp::L2Invalidate, addr, end);
    let p2 = line_pass(LineOp::L1Invalidate, addr, end);
    assert(invalidate_sequence(addr, len) =~= dsb + p1 + sync + p2 + dsb);
    lemma_concat(l, dsb + p1 + sync + p2, dsb);
    lemma_concat(l, dsb + p1 + sync, p2);
    lemma_concat(l, dsb + p1, sync);
    lemma_concat(l, dsb, p1);
    lemma_barriers(l, dsb, 1);
    lemma_pass(l, LineOp::L2Invalidate, addr, end);
    let l1 = l.after_all(p1);
    lemma_barriers(l1, sync, 2);
    lemma_pass(l1, LineOp::L1Invalidate, addr, end);
    lemma_barriers(l1.after_all(p2), dsb, 1);
}

} // verus!
