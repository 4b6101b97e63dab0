//! Buffered reception that an interrupt handler feeds.
//!
//! Received bytes wait in a ring until they are read. Bytes that find the ring
//! full are dropped, and that is remembered until it is asked for.
use vstd::prelude::*;

use super::RxErrors;
use crate::uart::UartId;

verus! {

/// Upper bound for the capacity of the receive ring.
pub const UART_ASYNC_RX_MAX_CAPACITY: usize = 1024;

/// The errors that are pending after `new` was seen.
pub open spec fn merged(pending: Option<RxErrors>, new: RxErrors) -> RxErrors {
    match pending {
        Some(errors) => errors.both(new),
        None => new,
    }
}

pub fn merge_rx_errors(lhs: Option<RxErrors>, rhs: RxErrors) -> (r: RxErrors)
    ensures
        r == merged(lhs, rhs),
{
    match lhs {
        Some(lhs) => lhs.merge(rhs),
        None => rhs,
    }
}

/// The position of item `i` of a ring.
pub open spec fn ring_slot(head: int, i: int, capacity: int) -> int {
    if head + i < capacity {
        head + i
    } else {
        head + i - capacity
    }
}

/// Receive state of one UART.
#[derive(Debug)]
pub struct RxAsyncContext {
    pub buf: [u8; UART_ASYNC_RX_MAX_CAPACITY],
    pub head: usize,
    pub len: usize,
    pub capacity: usize,
    pub errors: Option<RxErrors>,
    pub overflowed: bool,
    pub active: bool,
}

impl View for RxAsyncContext {
    type V = Seq<u8>;

    /// The bytes that wait to be read, the oldest first.
    open spec fn view(&self) -> Seq<u8> {
        Seq::new(
            self.len as nat,
            |i: int| self.buf@[ring_slot(self.head as int, i, self.capacity as int)],
        )
    }
}

/// The bytes that wait after `bytes` arrived: what the ring has no room for is dropped.
pub open spec fn accepted(queued: Seq<u8>, capacity: nat, bytes: Seq<u8>) -> Seq<u8> {
    if queued.len() + bytes.len() <= capacity {
        queued + bytes
    } else {
        queued + bytes.take(capacity - queued.len())
    }
}

impl RxAsyncContext {
    pub open spec fn wf(&self) -> bool {
        &&& self.capacity <= UART_ASYNC_RX_MAX_CAPACITY
        &&& self.len <= self.capacity
        &&& self.head < self.capacity || self.head == 0
    }

    /// Everything but the ring is that of `other`.
    pub open spec fn same_flags(&self, other: &Self) -> bool {
        &&& self.capacity == other.capacity
        &&& self.errors == other.errors
        &&& self.overflowed == other.overflowed
        &&& self.active == other.active
    }

    /// A state that receives nothing, with a zeroed ring.
    pub fn new() -> (r: Self)
        ensures
            r.wf(),
            r.buf@ == Seq::new(UART_ASYNC_RX_MAX_CAPACITY as nat, |i: int| 0u8),
            r.head == 0,
            r@ == Seq::<u8>::empty(),
            r.capacity == 0,
            r.errors is None,
            !r.overflowed,
            !r.active,
    {
        let r = RxAsyncContext {
            buf: [0;UART_ASYNC_RX_MAX_CAPACITY],
            head: 0,
            len: 0,
            capacity: 0,
            errors: None,
            overflowed: false,
            active: false,
        };
        assert(r.buf@ =~= Seq::new(UART_ASYNC_RX_MAX_CAPACITY as nat, |i: int| 0u8));
        assert(r@ =~= Seq::<u8>::empty());
        r
    }

    /// Starts to receive, with an empty ring of the given capacity.
    pub fn clear(&mut self, capacity: usize)
        requires
            capacity <= UART_ASYNC_RX_MAX_CAPACITY,
        ensures
            final(self).wf(),
            final(self)@ == Seq::<u8>::empty(),
            final(self).capacity == capacity,
            final(self).errors is None,
            !final(self).overflowed,
            final(self).active,
    {
        self.head = 0;
        self.len = 0;
        self.capacity = capacity;
        self.errors = None;
        self.overflowed = false;
        self.active = true;
        assert(self@ =~= Seq::<u8>::empty());
    }

    /// Appends a byte, if there is room.
    pub fn push(&mut self, byte: u8) -> (r: bool)
        requires
            old(self).wf(),
        ensures
            final(self).wf(),
            final(self).same_flags(old(self)),
            r == (old(self)@.len() < old(self).capacity),
            final(self)@ == (if r {
                old(self)@.push(byte)
            } else {
                old(self)@
            }),
    {
        if self.len >= self.capacity {
            return false;
        }
        let end: usize = self.head + self.len;
        let idx: usize = if end < self.capacity {
            end
        } else {
            end - self.capacity
        };
        self.buf[idx] = byte;
        self.len = self.len + 1;
        assert(self@ =~= old(self)@.push(byte));
        true
    }

    /// Takes as many bytes as there are and as `data` has room for.
    pub fn pop_into(&mut self, data: &mut Vec<u8>) -> (read: usize)
        requires
            old(self).wf(),
        ensures
            final(self).wf(),
            final(self).same_flags(old(self)),
            read == (if old(self)@.len() < old(data)@.len() {
                old(self)@.len()
            } else {
                old(data)@.len()
            }),
            final(data)@ == old(self)@.take(read as int) + old(data)@.skip(read as int),
            final(self)@ == old(self)@.skip(read as int),
    {
        let read: usize = if self.len < data.len() {
            self.len
        } else {
            data.len()
        };
        let mut i: usize = 0;
        while i < read
            invariant
                self.wf(),
                self.same_flags(old(self)),
                i <= read,
                read <= old(self)@.len(),
                read <= old(data)@.len(),
                self@ == old(self)@.skip(i as int),
                data@ == old(self)@.take(i as int) + old(data)@.skip(i as int),
            decreases read - i,
        {
            assert(self@.len() == old(self)@.len() - i);
            let byte: u8 = self.buf[self.head];
            assert(byte == self@[0]);
            assert(byte == old(self)@[i as int]);
            data.set(i, byte);
            let ghost before = self@;
            self.head = if self.head + 1 == self.capacity {
                0
            } else {
                self.head + 1
            };
            self.len = self.len - 1;
            assert(self@ =~= before.skip(1));
            assert(self@ =~= old(self)@.skip(i + 1));
            assert(data@ =~= old(self)@.take(i + 1) + old(data)@.skip(i + 1));
            i = i + 1;
        }
        read
    }

    /// Whether there is something to report besides bytes.
    pub fn has_pending_signal(&self) -> (r: bool)
        ensures
            r == (self.errors is Some || self.overflowed),
    {
        self.errors.is_some() || self.overflowed
    }

    /// Takes over what the interrupt handler has read from the UART. Returns whether
    /// the reader is to be woken.
    pub fn on_interrupt(&mut self, bytes: &[u8], errors: Option<RxErrors>) -> (wake: bool)
        requires
            old(self).wf(),
        ensures
            final(self).wf(),
            wake == (bytes@.len() > 0 || errors is Some),
            final(self).capacity == old(self).capacity,
            final(self).active == old(self).active,
            ({
                let taken = if old(self).active {
                    bytes@
                } else {
                    Seq::<u8>::empty()
                };
                &&& final(self)@ == accepted(old(self)@, old(self).capacity as nat, taken)
                &&& final(self).overflowed == (old(self).overflowed || old(self)@.len()
                    + taken.len() > old(self).capacity)
                &&& final(self).errors == (if old(self).active && errors is Some {
                    Some(merged(old(self).errors, errors->0))
                } else {
                    old(self).errors
                })
            }),
    {
        if bytes.len() == 0 && errors.is_none() {
            assert(self@ =~= accepted(old(self)@, old(self).capacity as nat, Seq::<u8>::empty()));
            return false;
        }
        if !self.active {
            assert(self@ =~= accepted(old(self)@, old(self).capacity as nat, Seq::<u8>::empty()));
            return true;
        }
        if let Some(errors) = errors {
            self.errors = Some(merge_rx_errors(self.errors, errors));
        }
        assert(self@ =~= old(self)@);
        let mut i: usize = 0;
        while i < bytes.len()
            invariant
                self.wf(),
                i <= bytes@.len(),
                old(self).active,
                self.capacity == old(self).capacity,
                self.active == old(self).active,
                self.overflowed == old(self).overflowed,
                self.errors == (if errors is Some {
                    Some(merged(old(self).errors, errors->0))
                } else {
                    old(self).errors
                }),
                self@ == old(self)@ + bytes@.take(i as int),
                self@.len() == old(self)@.len() + i,
            decreases bytes@.len() - i,
        {
            if !self.push(bytes[i]) {
                self.overflowed = true;
                assert(self@ =~= accepted(old(self)@, old(self).capacity as nat, bytes@));
                return true;
            }
            assert(bytes@.take(i + 1) =~= bytes@.take(i as int).push(bytes@[i as int]));
            assert(self@ =~= old(self)@ + bytes@.take(i + 1));
            i = i + 1;
        }
        assert(self@ =~= accepted(old(self)@, old(self).capacity as nat, bytes@));
        true
    }
}

/// What waits to be read is what arrived first: bytes are kept in order, and only
/// those that arrive at a full ring are dropped.
pub proof fn earliest_bytes_are_kept(queued: Seq<u8>, capacity: nat, first: Seq<u8>, second: Seq<u8>)
    requires
        queued.len() <= capacity,
    ensures
        ({
            let all = queued + first + second;
            accepted(accepted(queued, capacity, first), capacity, second) == (if all.len()
                <= capacity {
                all
            } else {
                all.take(capacity as int)
            })
        }),
{
    let all = queued + first + second;
    let once = accepted(queued, capacity, first);
    let twice = accepted(once, capacity, second);
    if all.len() <= capacity {
        assert(twice =~= all);
    } else {
        assert(twice =~= all.take(capacity as int));
    }
}

/// Buffered receiver of a UART, with a ring of `N` bytes.
#[derive(Debug)]
pub struct RxAsync<const N: usize> {
    pub id: UartId,
}

impl<const N: usize> RxAsync<N> {
    /// Starts to receive on a UART whose interrupt-driven reception has been started.
    pub fn new(id: UartId, ctx: &mut RxAsyncContext) -> (r: Self)
        requires
            0 < N <= UART_ASYNC_RX_MAX_CAPACITY,
        ensures
            r.id == id,
            final(ctx).wf(),
            final(ctx)@ == Seq::<u8>::empty(),
            final(ctx).capacity == N,
            final(ctx).errors is None,
            !final(ctx).overflowed,
            final(ctx).active,
    {
        ctx.clear(N);
        RxAsync { id }
    }

    /// Polls for bytes. The result is the number that was read; it is zero where
    /// an error or an overflow is to be reported instead.
    pub fn poll_read(&mut self, ctx: &mut RxAsyncContext, buf: &mut Vec<u8>) -> (r: Option<usize>)
        requires
            old(ctx).wf(),
        ensures
            *final(self) == *old(self),
            final(ctx).wf(),
            final(ctx).same_flags(old(ctx)),
            ({
                let read = if old(ctx)@.len() < old(buf)@.len() {
                    old(ctx)@.len()
                } else {
                    old(buf)@.len()
                };
                &&& final(buf)@ == old(ctx)@.take(read as int) + old(buf)@.skip(read as int)
                &&& final(ctx)@ == old(ctx)@.skip(read as int)
                &&& r == (if read > 0 || old(buf)@.len() == 0 || old(ctx).errors is Some || old(
                    ctx,
                ).overflowed {
                    Some(read as usize)
                } else {
                    None
                })
            }),
    {
        if buf.len() == 0 {
            assert(buf@ =~= old(ctx)@.take(0) + old(buf)@.skip(0));
            assert(ctx@ =~= old(ctx)@.skip(0));
            return Some(0);
        }
        let read: usize = ctx.pop_into(buf);
        if read > 0 {
            return Some(read);
        }
        if ctx.has_pending_signal() {
            return Some(0);
        }
        None
    }

    /// Number of buffered bytes.
    pub fn available(&self, ctx: &RxAsyncContext) -> (r: usize)
        ensures
            r == ctx@.len(),
    {
        ctx.len
    }

    /// Takes the errors that have been gathered.
    pub fn take_errors(&mut self, ctx: &mut RxAsyncContext) -> (r: Option<RxErrors>)
        requires
            old(ctx).wf(),
        ensures
            *final(self) == *old(self),
            final(ctx).wf(),
            r == old(ctx).errors,
            *final(ctx) == (RxAsyncContext { errors: None, ..*old(ctx) }),
    {
        let errors = ctx.errors;
        ctx.errors = None;
        errors
    }

    /// Takes the mark that bytes were dropped.
    pub fn take_overflowed(&mut self, ctx: &mut RxAsyncContext) -> (r: bool)
        requires
            old(ctx).wf(),
        ensures
            *final(self) == *old(self),
            final(ctx).wf(),
            r == old(ctx).overflowed,
            *final(ctx) == (RxAsyncContext { overflowed: false, ..*old(ctx) }),
    {
        let overflowed = ctx.overflowed;
        ctx.overflowed = false;
        overflowed
    }

    /// Stops to receive, once the interrupts have been disabled.
    pub fn release(self, ctx: &mut RxAsyncContext) -> (r: UartId)
        requires
            old(ctx).wf(),
        ensures
            r == self.id,
            final(ctx).wf(),
            *final(ctx) == (RxAsyncContext { active: false, ..*old(ctx) }),
    {
        ctx.active = false;
        self.id
    }
}

} // verus!
