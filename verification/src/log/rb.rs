//! Logging into a ring buffer that a task drains.
//!
//! A frame is one formatted record. Its bytes go into the ring buffer and its
//! length goes into a queue, and the draining task takes both out again.
use vstd::prelude::*;

use ringbuf::traits::{Consumer, Observer, Producer};

verus! {

/// Bytes that the ring buffer holds.
pub const RING_CAPACITY: usize = 4096;

/// Bytes that are thrown away at a time.
pub const DISCARD_CHUNK: usize = 64;

/// A byte ring buffer, which is a `ringbuf::StaticRb`.
#[verifier::external_body]
pub struct ByteRing {
    ring: ringbuf::StaticRb<u8, 4096>,
}

/// The bytes in a ring buffer, oldest first.
pub uninterp spec fn ring_contents(ring: ByteRing) -> Seq<u8>;

/// `ringbuf::StaticRb::default`: an empty ring buffer.
#[verifier::external_body]
fn ring_default() -> (r: ByteRing)
    ensures
        ring_contents(r) == Seq::<u8>::empty(),
{
    ByteRing { ring: ringbuf::StaticRb::default() }
}

/// `ringbuf::traits::Observer::occupied_len`: the number of bytes in the buffer,
/// which is at most its capacity.
#[verifier::external_body]
fn ring_occupied_len(ring: &ByteRing) -> (r: usize)
    ensures
        r == ring_contents(*ring).len(),
        r <= RING_CAPACITY,
{
    ring.ring.occupied_len()
}

/// `ringbuf::traits::Observer::vacant_len`: the number of bytes that still fit.
#[verifier::external_body]
fn ring_vacant_len(ring: &ByteRing) -> (r: usize)
    ensures
        r + ring_contents(*ring).len() == RING_CAPACITY,
{
    ring.ring.vacant_len()
}

/// `ringbuf::traits::Producer::push_slice`: appends as many of the bytes, from
/// the first on, as fit, and returns their number.
#[verifier::external_body]
fn ring_push_slice(ring: &mut ByteRing, elems: &[u8]) -> (r: usize)
    ensures
        r == (if elems@.len() + ring_contents(*old(ring)).len() <= RING_CAPACITY {
            elems@.len() as int
        } else {
            RING_CAPACITY - ring_contents(*old(ring)).len()
        }),
        ring_contents(*final(ring)) == ring_contents(*old(ring)) + elems@.take(r as int),
{
    ring.ring.push_slice(elems)
}

/// `ringbuf::traits::Consumer::pop_slice`: moves the oldest bytes to the front
/// of the slice, as many as the shorter of the two holds, and returns their number.
#[verifier::external_body]
fn ring_pop_slice(ring: &mut ByteRing, elems: &mut Vec<u8>) -> (r: usize)
    ensures
        r == (if old(elems)@.len() <= ring_contents(*old(ring)).len() {
            old(elems)@.len()
        } else {
            ring_contents(*old(ring)).len()
        }),
        final(elems)@ == ring_contents(*old(ring)).take(r as int) + old(elems)@.skip(r as int),
        ring_contents(*final(ring)) == ring_contents(*old(ring)).skip(r as int),
{
    ring.ring.pop_slice(elems.as_mut_slice())
}

/// The smaller of two lengths.
pub open spec fn shorter(a: nat, b: nat) -> nat {
    if a <= b {
        a
    } else {
        b
    }
}

/// The logging back end.
pub struct Logger {
    pub ring: ByteRing,
}

impl Logger {
    /// The bytes that wait to be drained, oldest first.
    pub open spec fn view(&self) -> Seq<u8> {
        ring_contents(self.ring)
    }

    pub fn new() -> (r: Self)
        ensures
            r@ == Seq::<u8>::empty(),
    {
        Logger { ring: ring_default() }
    }

    /// Whether a frame of this length can be logged.
    ///
    /// Frames are logged whole or not at all. The caller queues the length of a
    /// frame that fits before it calls [`Logger::log`].
    pub fn accepts(&self, frame_len: usize) -> (r: bool)
        ensures
            r == (frame_len > 0 && frame_len + self@.len() <= RING_CAPACITY),
    {
        let vacant: usize = ring_vacant_len(&self.ring);
        frame_len != 0 && vacant >= frame_len
    }

    /// Logs a frame, if it fits and its length was queued. Returns whether it was logged.
    pub fn log(&mut self, frame: &[u8], length_queued: bool) -> (r: bool)
        ensures
            r == (length_queued && frame@.len() > 0 && frame@.len() + old(self)@.len()
                <= RING_CAPACITY),
            final(self)@ == (if r {
                old(self)@ + frame@
            } else {
                old(self)@
            }),
    {
        if !self.accepts(frame.len()) {
            return false;
        }
        if !length_queued {
            return false;
        }
        let written: usize = ring_push_slice(&mut self.ring, frame);
        assert(frame@.take(written as int) =~= frame@);
        true
    }

    /// Number of bytes that wait to be drained.
    pub fn pending_bytes(&self) -> (r: usize)
        ensures
            r == self@.len(),
            r <= RING_CAPACITY,
    {
        ring_occupied_len(&self.ring)
    }

    /// Whether everything that was logged has been drained.
    pub fn is_flushed(&self, frame_queue_is_empty: bool) -> (r: bool)
        ensures
            r == (frame_queue_is_empty && self@.len() == 0),
    {
        frame_queue_is_empty && self.pending_bytes() == 0
    }

    /// Takes a frame of `frame_len` bytes out. The part of it that does not fit
    /// into `buf` is thrown away; the part of `buf` beyond it is kept.
    pub fn read_next_frame(&mut self, frame_len: usize, buf: &mut Vec<u8>)
        ensures
            final(self)@ == old(self)@.skip(shorter(frame_len as nat, old(self)@.len()) as int),
            final(buf)@ == old(self)@.take(
                taken(frame_len as nat, old(buf)@.len(), old(self)@.len()) as int,
            ) + old(buf)@.skip(taken(frame_len as nat, old(buf)@.len(), old(self)@.len()) as int),
    {
        let ghost before = self@;
        let ghost kept = buf@;
        let read_len: usize = if frame_len < buf.len() {
            frame_len
        } else {
            buf.len()
        };
        let mut head: Vec<u8> = vec![0u8;read_len];
        let count: usize = ring_pop_slice(&mut self.ring, &mut head);
        let mut i: usize = 0;
        while i < count
            invariant
                i <= count <= read_len <= kept.len(),
                count <= before.len(),
                head@.len() == read_len,
                head@.take(count as int) == before.take(count as int),
                buf@ == before.take(i as int) + kept.skip(i as int),
            decreases count - i,
        {
            assert(head@[i as int] == head@.take(count as int)[i as int]);
            assert(head@[i as int] == before[i as int]);
            buf.set(i, head[i]);
            assert(buf@ =~= before.take(i + 1) + kept.skip(i + 1));
            i = i + 1;
        }
        let mut remaining: usize = frame_len - read_len;
        while remaining != 0
            invariant
                remaining <= frame_len,
                self@ == before.skip(
                    shorter((frame_len - remaining) as nat, before.len()) as int,
                ),
            decreases remaining,
        {
            let chunk: usize = if remaining < DISCARD_CHUNK {
                remaining
            } else {
                DISCARD_CHUNK
            };
            let ghost mid = self@;
            let mut discard: Vec<u8> = vec![0u8;chunk];
            let dropped: usize = ring_pop_slice(&mut self.ring, &mut discard);
            remaining = remaining - chunk;
            assert(self@ =~= before.skip(
                shorter((frame_len - remaining) as nat, before.len()) as int,
            ));
        }
    }
}

/// The part of a frame that a buffer of `room` bytes takes.
pub open spec fn taken(frame_len: nat, room: nat, pending: nat) -> nat {
    shorter(shorter(frame_len, room), pending)
}

/// The bytes of `frames`, one after the other.
pub open spec fn concatenated(frames: Seq<Seq<u8>>) -> Seq<u8>
    decreases frames.len(),
{
    if frames.len() == 0 {
        Seq::empty()
    } else {
        frames[0] + concatenated(frames.drop_first())
    }
}

/// Logging a frame behind others keeps the buffer a row of whole frames.
pub proof fn logged_frames_stay_in_a_row(frames: Seq<Seq<u8>>, frame: Seq<u8>)
    ensures
        concatenated(frames.push(frame)) == concatenated(frames) + frame,
    decreases frames.len(),
{
    let after = frames.push(frame);
    if frames.len() == 0 {
        assert(after.drop_first() =~= Seq::empty());
        assert(concatenated(after.drop_first()) =~= Seq::empty());
        assert(concatenated(after) =~= frame);
        assert(concatenated(frames) + frame =~= frame);
    } else {
        assert(after.drop_first() =~= frames.drop_first().push(frame));
        logged_frames_stay_in_a_row(frames.drop_first(), frame);
        assert(concatenated(after) =~= concatenated(frames) + frame);
    }
}

/// Frames come out in the order and with the bytes with which they were logged:
/// reading as many bytes as the oldest frame has, into a buffer that holds them,
/// gives that frame and leaves the others.
pub proof fn frames_are_read_as_logged(frames: Seq<Seq<u8>>, room: nat)
    requires
        frames.len() > 0,
        frames[0].len() <= room,
    ensures
        concatenated(frames).take(
            taken(frames[0].len(), room, concatenated(frames).len()) as int,
        ) == frames[0],
        concatenated(frames).skip(
            shorter(frames[0].len(), concatenated(frames).len()) as int,
        ) == concatenated(frames.drop_first()),
{
    let all = concatenated(frames);
    assert(all.len() >= frames[0].len());
    assert(all.take(frames[0].len() as int) =~= frames[0]);
    assert(all.skip(frames[0].len() as int) =~= concatenated(frames.drop_first()));
}

} // verus!
