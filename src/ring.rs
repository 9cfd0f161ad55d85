//! The byte channel between the network thread and the audio thread.
//!
//! A blocking single-producer / single-consumer ring of bytes from
//! `ringbuf_blocking`, split into a producer half and a consumer half. Each
//! half is owned by one thread; dropping either half closes the channel, and
//! a wait on the other half then ends with `WaitOutcome::Closed`.
//!
//! What the channel holds is changed by the other thread at any moment, so
//! the contracts here speak of what one half knows on its own: the capacity,
//! which never changes; the bytes sent or taken through it so far, in order;
//! and the bytes that it has itself seen ready (consumer) or free
//! (producer). The other thread can only add to what a half has seen: it
//! fills what the consumer has seen ready, and frees what the producer has
//! seen free, never the reverse.
use ringbuf::traits::{Consumer, Observer, Producer, Split};
use vstd::prelude::*;

verus! {

/// Result of a bounded wait on one half of the channel.
#[derive(Clone, Copy, Debug, PartialEq, Eq, Structural)]
pub enum WaitOutcome {
    /// The condition held.
    Ready,
    /// The half's timeout elapsed first; the caller may check again.
    TimedOut,
    /// The other half was dropped; nothing more will come or go.
    Closed,
}

/// How much of a sequence of bytes `RingProducer::push_all` enqueued.
#[derive(Clone, Copy, Debug, PartialEq, Eq, Structural)]
pub struct Pushed {
    /// Bytes enqueued, a prefix of what was given.
    pub count: usize,
    /// The consumer half was found gone.
    pub closed: bool,
    /// Waits made.
    pub waits: usize,
}

/// The consumer half of a byte channel.
#[verifier::external_body]
pub struct RingConsumer {
    cons: ringbuf_blocking::BlockingCons<std::sync::Arc<ringbuf_blocking::BlockingHeapRb<u8>>>,
}

/// The producer half of a byte channel.
#[verifier::external_body]
pub struct RingProducer {
    prod: ringbuf_blocking::BlockingProd<std::sync::Arc<ringbuf_blocking::BlockingHeapRb<u8>>>,
}

/// Number of bytes that the channel behind a consumer half can hold.
pub uninterp spec fn consumer_capacity(c: RingConsumer) -> nat;

/// Number of bytes that the channel behind a producer half can hold.
pub uninterp spec fn producer_capacity(p: RingProducer) -> nat;

/// The bytes taken out of the channel through a consumer half so far, popped
/// or skipped, oldest first.
pub uninterp spec fn dequeued(c: RingConsumer) -> Seq<u8>;

/// The bytes put into the channel through a producer half so far, oldest
/// first.
pub uninterp spec fn enqueued(p: RingProducer) -> Seq<u8>;

/// The bytes that a consumer half last saw ready, less what it took since:
/// it caches the producer's position and refreshes it when it looks.
pub uninterp spec fn seen_ready(c: RingConsumer) -> nat;

/// The bytes that a producer half last saw free, less what it filled since:
/// it caches the consumer's position and refreshes it when it looks.
pub uninterp spec fn seen_free(p: RingProducer) -> nat;

/// Which channel a consumer half belongs to.
pub uninterp spec fn consumer_channel(c: RingConsumer) -> int;

/// Which channel a producer half belongs to.
pub uninterp spec fn producer_channel(p: RingProducer) -> int;

/// Byte `i` of everything that ever goes through channel `ch`, counted from
/// its creation: the producer puts these bytes in, in this order, and the
/// consumer takes them out, popped or skipped, in the same order.
pub uninterp spec fn stream_byte(ch: int, i: int) -> u8;

/// Every byte of `s` is the byte at the same place in the stream of `ch`.
pub open spec fn follows_stream(s: Seq<u8>, ch: int) -> bool {
    forall|i: int| 0 <= i < s.len() ==> #[trigger] s[i] == stream_byte(ch, i)
}

/// Largest capacity that the ring accepts.
pub const MAX_CAPACITY: usize = usize::MAX / 2;

/// Relies on `BlockingHeapRb::new` and `Split::split`: a ring of exactly
/// `capacity` bytes (it panics on zero or on more than `usize::MAX / 2`),
/// empty, shared by the two halves.
#[verifier::external_body]
fn split_new(capacity: usize) -> (r: (RingProducer, RingConsumer))
    requires
        0 < capacity <= MAX_CAPACITY,
    ensures
        producer_capacity(r.0) == capacity,
        consumer_capacity(r.1) == capacity,
        enqueued(r.0) == Seq::<u8>::empty(),
        dequeued(r.1) == Seq::<u8>::empty(),
        seen_free(r.0) == capacity,
        seen_ready(r.1) == 0,
        producer_channel(r.0) == consumer_channel(r.1),
{
    let (prod, cons) = ringbuf_blocking::BlockingHeapRb::<u8>::new(capacity).split();
    (RingProducer { prod }, RingConsumer { cons })
}

/// Creates an empty channel of `capacity` bytes and returns its two halves.
/// Both halves start with no timeout: a wait blocks until it is answered.
pub fn channel(capacity: usize) -> (r: (RingProducer, RingConsumer))
    requires
        0 < capacity <= MAX_CAPACITY,
    ensures
        producer_capacity(r.0) == capacity,
        consumer_capacity(r.1) == capacity,
        enqueued(r.0) == Seq::<u8>::empty(),
        dequeued(r.1) == Seq::<u8>::empty(),
        seen_free(r.0) == capacity,
        seen_ready(r.1) == 0,
        producer_channel(r.0) == consumer_channel(r.1),
{
    split_new(capacity)
}

/// A consumer call that leaves what was taken and the capacity as they were,
/// and only adds to what was seen ready.
pub open spec fn consumer_looked(before: RingConsumer, after: RingConsumer) -> bool {
    &&& consumer_capacity(after) == consumer_capacity(before)
    &&& consumer_channel(after) == consumer_channel(before)
    &&& dequeued(after) == dequeued(before)
    &&& seen_ready(after) >= seen_ready(before)
}

/// A producer call that leaves what was sent and the capacity as they were,
/// and only adds to what was seen free.
pub open spec fn producer_looked(before: RingProducer, after: RingProducer) -> bool {
    &&& producer_capacity(after) == producer_capacity(before)
    &&& producer_channel(after) == producer_channel(before)
    &&& enqueued(after) == enqueued(before)
    &&& seen_free(after) >= seen_free(before)
}

/// The smaller of two counts.
pub open spec fn min_nat(a: nat, b: nat) -> nat {
    if a < b { a } else { b }
}

impl RingConsumer {
    /// Relies on `Observer::capacity`: the ring's fixed, non-zero size.
    #[verifier::external_body]
    fn ext_capacity(&self) -> (r: usize)
        ensures
            r == consumer_capacity(*self),
            r > 0,
    {
        self.cons.capacity().get()
    }

    /// Relies on `Observer::occupied_len`: it refreshes the producer's
    /// position and returns the bytes ready now, never more than the
    /// capacity.
    #[verifier::external_body]
    fn ext_occupied_len(&mut self) -> (r: usize)
        ensures
            consumer_looked(*old(self), *final(self)),
            r <= consumer_capacity(*old(self)),
            seen_ready(*final(self)) == r,
    {
        self.cons.occupied_len()
    }

    /// Relies on `BlockingCons::set_timeout`: later waits give up after
    /// `millis` milliseconds; `None` waits without limit.
    #[verifier::external_body]
    fn ext_set_timeout(&mut self, millis: Option<u64>)
        ensures
            consumer_looked(*old(self), *final(self)),
            seen_ready(*final(self)) == seen_ready(*old(self)),
    {
        self.cons.set_timeout(millis.map(std::time::Duration::from_millis))
    }

    /// Relies on `BlockingCons::wait_occupied`: blocks until `count` bytes
    /// are ready, the timeout elapses, or the producer half is dropped (it
    /// asserts `count` against the capacity). It answers `Ok` only once it
    /// has seen `count` bytes ready.
    #[verifier::external_body]
    fn ext_wait_occupied(&mut self, count: usize) -> (r: WaitOutcome)
        requires
            count <= consumer_capacity(*old(self)),
        ensures
            consumer_looked(*old(self), *final(self)),
            r == WaitOutcome::Ready ==> seen_ready(*final(self)) >= count,
    {
        match self.cons.wait_occupied(count) {
            Ok(()) => WaitOutcome::Ready,
            Err(ringbuf_blocking::WaitError::TimedOut) => WaitOutcome::TimedOut,
            Err(ringbuf_blocking::WaitError::Closed) => WaitOutcome::Closed,
        }
    }

    /// Relies on `Consumer::pop_slice`: refreshes the producer's position,
    /// moves the oldest ready bytes (the next ones of the channel's stream) into the front of `buf`, as many as are
    /// ready and fit, and leaves the rest of `buf` as it was.
    #[verifier::external_body]
    fn ext_pop_slice(&mut self, buf: &mut [u8]) -> (r: usize)
        ensures
            consumer_capacity(*final(self)) == consumer_capacity(*old(self)),
            r <= old(buf)@.len(),
            r >= min_nat(old(buf)@.len(), seen_ready(*old(self))),
            seen_ready(*final(self)) + r >= seen_ready(*old(self)),
            final(buf)@.len() == old(buf)@.len(),
            final(buf)@.subrange(r as int, old(buf)@.len() as int) == old(buf)@.subrange(
                r as int,
                old(buf)@.len() as int,
            ),
            dequeued(*final(self)) == dequeued(*old(self)) + final(buf)@.subrange(0, r as int),
            consumer_channel(*final(self)) == consumer_channel(*old(self)),
            forall|k: int|
                0 <= k < dequeued(*final(self)).len() ==> #[trigger] dequeued(*final(self))[k]
                    == stream_byte(consumer_channel(*final(self)), k),
    {
        self.cons.pop_slice(buf)
    }

    /// Relies on `Consumer::skip`: refreshes the producer's position, drops
    /// up to `count` of the oldest bytes unread, as many as are ready, and
    /// returns how many it dropped.
    #[verifier::external_body]
    fn ext_skip(&mut self, count: usize) -> (r: usize)
        ensures
            consumer_capacity(*final(self)) == consumer_capacity(*old(self)),
            r <= count,
            r >= min_nat(count as nat, seen_ready(*old(self))),
            seen_ready(*final(self)) + r >= seen_ready(*old(self)),
            dequeued(*final(self)).len() == dequeued(*old(self)).len() + r,
            dequeued(*final(self)).subrange(0, dequeued(*old(self)).len() as int) == dequeued(
                *old(self),
            ),
            consumer_channel(*final(self)) == consumer_channel(*old(self)),
            forall|k: int|
                0 <= k < dequeued(*final(self)).len() ==> #[trigger] dequeued(*final(self))[k]
                    == stream_byte(consumer_channel(*final(self)), k),
    {
        self.cons.skip(count)
    }

    /// Number of bytes that the channel can hold.
    pub fn capacity(&self) -> (r: usize)
        ensures
            r == consumer_capacity(*self),
            r > 0,
    {
        self.ext_capacity()
    }

    /// Number of bytes ready to read now; the producer may add more at any
    /// moment, and only this half takes bytes away.
    pub fn occupied_len(&mut self) -> (r: usize)
        ensures
            consumer_looked(*old(self), *final(self)),
            r <= consumer_capacity(*old(self)),
            seen_ready(*final(self)) == r,
    {
        self.ext_occupied_len()
    }

    /// Sets how long a wait on this half may block: `Some(ms)` milliseconds,
    /// or without limit for `None`.
    pub fn set_timeout_ms(&mut self, millis: Option<u64>)
        ensures
            consumer_looked(*old(self), *final(self)),
            seen_ready(*final(self)) == seen_ready(*old(self)),
    {
        self.ext_set_timeout(millis)
    }

    /// Copies the oldest ready bytes into the front of `buf` without waiting,
    /// as many as are ready and fit (at least as many as this half has seen
    /// ready), and returns their number. The rest of `buf` is left as it was.
    pub fn pop_into(&mut self, buf: &mut [u8]) -> (r: usize)
        ensures
            consumer_capacity(*final(self)) == consumer_capacity(*old(self)),
            r <= old(buf)@.len(),
            r >= min_nat(old(buf)@.len(), seen_ready(*old(self))),
            seen_ready(*final(self)) + r >= seen_ready(*old(self)),
            final(buf)@.len() == old(buf)@.len(),
            final(buf)@.subrange(r as int, old(buf)@.len() as int) == old(buf)@.subrange(
                r as int,
                old(buf)@.len() as int,
            ),
            dequeued(*final(self)) == dequeued(*old(self)) + final(buf)@.subrange(0, r as int),
            consumer_channel(*final(self)) == consumer_channel(*old(self)),
            follows_stream(dequeued(*final(self)), consumer_channel(*final(self))),
    {
        self.ext_pop_slice(buf)
    }

    /// Discards up to `count` of the oldest ready bytes unread and returns
    /// how many it discarded: `count` itself when this half has seen that
    /// many ready, and everything ready when `count` is larger.
    pub fn skip(&mut self, count: usize) -> (r: usize)
        ensures
            consumer_capacity(*final(self)) == consumer_capacity(*old(self)),
            r <= count,
            r >= min_nat(count as nat, seen_ready(*old(self))),
            seen_ready(*final(self)) + r >= seen_ready(*old(self)),
            dequeued(*final(self)).len() == dequeued(*old(self)).len() + r,
            dequeued(*final(self)).subrange(0, dequeued(*old(self)).len() as int) == dequeued(
                *old(self),
            ),
            consumer_channel(*final(self)) == consumer_channel(*old(self)),
            follows_stream(dequeued(*final(self)), consumer_channel(*final(self))),
    {
        self.ext_skip(count)
    }

    /// Waits for at least one ready byte, then moves as many ready bytes as
    /// fit into the front of `buf`: at least one when `buf` is not empty.
    /// Returns the outcome of the wait and the number of bytes moved, which
    /// is zero unless the wait was `Ready`.
    pub fn drain_into(&mut self, buf: &mut [u8]) -> (r: (WaitOutcome, usize))
        ensures
            consumer_capacity(*final(self)) == consumer_capacity(*old(self)),
            final(buf)@.len() == old(buf)@.len(),
            r.1 <= old(buf)@.len(),
            r.0 == WaitOutcome::Ready && old(buf)@.len() > 0 ==> r.1 >= 1,
            final(buf)@.subrange(r.1 as int, old(buf)@.len() as int) == old(buf)@.subrange(
                r.1 as int,
                old(buf)@.len() as int,
            ),
            dequeued(*final(self)) == dequeued(*old(self)) + final(buf)@.subrange(0, r.1 as int),
            r.0 != WaitOutcome::Ready ==> r.1 == 0 && final(buf)@ == old(buf)@,
            consumer_channel(*final(self)) == consumer_channel(*old(self)),
            follows_stream(dequeued(*old(self)), consumer_channel(*old(self))) ==> follows_stream(
                dequeued(*final(self)),
                consumer_channel(*final(self)),
            ),
    {
        let _ = self.capacity();
        let w = self.wait_occupied(1);
        if w != WaitOutcome::Ready {
            assert(final(buf)@.subrange(0, 0) =~= Seq::<u8>::empty());
            assert(dequeued(*self) =~= dequeued(*self) + buf@.subrange(0, 0));
            return (w, 0);
        }
        let n = self.pop_into(buf);
        (w, n)
    }

    /// Waits until at least `count` bytes are ready to read; `Ready` means
    /// that this half has seen them.
    pub fn wait_occupied(&mut self, count: usize) -> (r: WaitOutcome)
        requires
            count <= consumer_capacity(*old(self)),
        ensures
            consumer_looked(*old(self), *final(self)),
            r == WaitOutcome::Ready ==> seen_ready(*final(self)) >= count,
    {
        self.ext_wait_occupied(count)
    }
}

impl RingProducer {
    /// Relies on `Observer::capacity`: the ring's fixed, non-zero size.
    #[verifier::external_body]
    fn ext_capacity(&self) -> (r: usize)
        ensures
            r == producer_capacity(*self),
            r > 0,
    {
        self.prod.capacity().get()
    }

    /// Relies on `BlockingProd::set_timeout`: later waits give up after
    /// `millis` milliseconds; `None` waits without limit.
    #[verifier::external_body]
    fn ext_set_timeout(&mut self, millis: Option<u64>)
        ensures
            producer_looked(*old(self), *final(self)),
            seen_free(*final(self)) == seen_free(*old(self)),
    {
        self.prod.set_timeout(millis.map(std::time::Duration::from_millis))
    }

    /// Relies on `BlockingProd::wait_vacant`: blocks until `count` bytes are
    /// free, the timeout elapses, or the consumer half is dropped (it asserts
    /// `count` against the capacity). It answers `Ok` only once it has seen
    /// `count` bytes free.
    #[verifier::external_body]
    fn ext_wait_vacant(&mut self, count: usize) -> (r: WaitOutcome)
        requires
            count <= producer_capacity(*old(self)),
        ensures
            producer_looked(*old(self), *final(self)),
            r == WaitOutcome::Ready ==> seen_free(*final(self)) >= count,
    {
        match self.prod.wait_vacant(count) {
            Ok(()) => WaitOutcome::Ready,
            Err(ringbuf_blocking::WaitError::TimedOut) => WaitOutcome::TimedOut,
            Err(ringbuf_blocking::WaitError::Closed) => WaitOutcome::Closed,
        }
    }

    /// Relies on `Producer::push_slice`: refreshes the consumer's position,
    /// appends the first bytes of `data` in order, as many as there is room
    /// for (never more than the free space it saw, so no unread byte is
    /// overwritten), and returns how many it appended.
    #[verifier::external_body]
    fn ext_push_slice(&mut self, data: &[u8]) -> (r: usize)
        ensures
            producer_capacity(*final(self)) == producer_capacity(*old(self)),
            r <= data@.len(),
            r >= min_nat(data@.len(), seen_free(*old(self))),
            seen_free(*final(self)) + r >= seen_free(*old(self)),
            seen_free(*final(self)) + r <= producer_capacity(*old(self)),
            enqueued(*final(self)) == enqueued(*old(self)) + data@.subrange(0, r as int),
            producer_channel(*final(self)) == producer_channel(*old(self)),
            forall|k: int|
                0 <= k < enqueued(*final(self)).len() ==> #[trigger] enqueued(*final(self))[k]
                    == stream_byte(producer_channel(*final(self)), k),
    {
        self.prod.push_slice(data)
    }

    /// Number of bytes that the channel can hold.
    pub fn capacity(&self) -> (r: usize)
        ensures
            r == producer_capacity(*self),
            r > 0,
    {
        self.ext_capacity()
    }

    /// Sets how long a wait on this half may block: `Some(ms)` milliseconds,
    /// or without limit for `None`.
    pub fn set_timeout_ms(&mut self, millis: Option<u64>)
        ensures
            producer_looked(*old(self), *final(self)),
            seen_free(*final(self)) == seen_free(*old(self)),
    {
        self.ext_set_timeout(millis)
    }

    /// Appends the first bytes of `data` in order without waiting, as many
    /// as there is room for (at least as many as this half has seen free),
    /// and returns how many it appended.
    pub fn push_slice(&mut self, data: &[u8]) -> (r: usize)
        ensures
            producer_capacity(*final(self)) == producer_capacity(*old(self)),
            r <= data@.len(),
            r >= min_nat(data@.len(), seen_free(*old(self))),
            seen_free(*final(self)) + r >= seen_free(*old(self)),
            seen_free(*final(self)) + r <= producer_capacity(*old(self)),
            enqueued(*final(self)) == enqueued(*old(self)) + data@.subrange(0, r as int),
            producer_channel(*final(self)) == producer_channel(*old(self)),
            follows_stream(enqueued(*final(self)), producer_channel(*final(self))),
    {
        self.ext_push_slice(data)
    }

    /// Acts on the outcome of a wait made before pushing `data[from..]`:
    /// after `Ready` it appends the next bytes, at least as many as the wait
    /// asked for, and answers where the pushed part now ends; after
    /// `TimedOut` it appends nothing and answers `from`; after `Closed` it
    /// appends nothing and answers `None`, to stop.
    fn push_after_wait(&mut self, outcome: WaitOutcome, data: &[u8], from: usize) -> (r: Option<
        usize,
    >)
        requires
            from <= data@.len(),
            outcome == WaitOutcome::Ready ==> seen_free(*old(self)) >= min_nat(
                (data@.len() - from) as nat,
                producer_capacity(*old(self)),
            ),
        ensures
            producer_capacity(*final(self)) == producer_capacity(*old(self)),
            producer_channel(*final(self)) == producer_channel(*old(self)),
            outcome == WaitOutcome::Closed <==> r is None,
            outcome != WaitOutcome::Ready ==> *final(self) == *old(self),
            outcome == WaitOutcome::TimedOut ==> r == Some(from),
            outcome == WaitOutcome::Ready ==> {
                &&& r is Some
                &&& from + min_nat((data@.len() - from) as nat, producer_capacity(*old(self)))
                    <= r.unwrap() <= data@.len()
                &&& enqueued(*final(self)) == enqueued(*old(self)) + data@.subrange(
                    from as int,
                    r.unwrap() as int,
                )
                &&& follows_stream(enqueued(*final(self)), producer_channel(*final(self)))
            },
    {
        match outcome {
            WaitOutcome::Ready => {
                let tail = vstd::slice::slice_subrange(data, from, data.len());
                let n = self.push_slice(tail);
                proof {
                    assert(tail@ =~= data@.subrange(from as int, data@.len() as int));
                    assert(tail@.subrange(0, n as int) =~= data@.subrange(
                        from as int,
                        from + n,
                    ));
                }
                Some(from + n)
            },
            WaitOutcome::TimedOut => Some(from),
            WaitOutcome::Closed => None,
        }
    }

    /// Enqueues `data` in order, waiting for room as needed, with at most
    /// `max_waits` waits. Each wait asks for the room that the rest needs, or
    /// for the whole channel when the rest is larger; after a `Ready` wait
    /// that much is appended, after `TimedOut` it waits again, and on
    /// `Closed` it stops at once. So it stops short of the whole of `data`
    /// only when the consumer half is gone or every wait has been spent, and
    /// data that fits in the channel goes in whole or not at all.
    pub fn push_all(&mut self, data: &[u8], max_waits: usize) -> (r: Pushed)
        ensures
            producer_capacity(*final(self)) == producer_capacity(*old(self)),
            producer_channel(*final(self)) == producer_channel(*old(self)),
            r.count <= data@.len(),
            enqueued(*final(self)) == enqueued(*old(self)) + data@.subrange(0, r.count as int),
            follows_stream(enqueued(*old(self)), producer_channel(*old(self))) ==> follows_stream(
                enqueued(*final(self)),
                producer_channel(*final(self)),
            ),
            r.waits <= max_waits,
            !r.closed && r.count < data@.len() ==> r.waits == max_waits,
            data@.len() <= producer_capacity(*old(self)) ==> r.count == 0 || r.count
                == data@.len(),
            data@.len() <= producer_capacity(*old(self)) && r.closed ==> r.count == 0,
            data@.len() == 0 ==> r.count == 0 && !r.closed && r.waits == 0,
            max_waits == 0 ==> r.count == 0 && !r.closed,
    {
        let cap = self.capacity();
        let len = data.len();
        let mut pushed: usize = 0;
        let mut waits: usize = 0;
        while pushed < len && waits < max_waits
            invariant
                producer_capacity(*self) == producer_capacity(*old(self)),
                producer_channel(*self) == producer_channel(*old(self)),
                cap == producer_capacity(*self),
                len == data@.len(),
                pushed <= len,
                waits <= max_waits,
                max_waits == 0 ==> pushed == 0,
                len == 0 ==> waits == 0,
                len <= cap ==> pushed == 0 || pushed == len,
                enqueued(*self) == enqueued(*old(self)) + data@.subrange(0, pushed as int),
                follows_stream(enqueued(*old(self)), producer_channel(*old(self)))
                    ==> follows_stream(enqueued(*self), producer_channel(*self)),
            decreases max_waits - waits,
        {
            let rest = len - pushed;
            let want = if rest < cap { rest } else { cap };
            let w = self.wait_vacant(want);
            waits = waits + 1;
            let ghost before = enqueued(*self);
            match self.push_after_wait(w, data, pushed) {
                None => {
                    return Pushed { count: pushed, closed: true, waits };
                },
                Some(k) => {
                    proof {
                        assert(data@.subrange(0, pushed as int) + data@.subrange(
                            pushed as int,
                            k as int,
                        ) =~= data@.subrange(0, k as int));
                    }
                    pushed = k;
                },
            }
        }
        Pushed { count: pushed, closed: false, waits }
    }

    /// Waits until at least `count` bytes are free; `Ready` means that this
    /// half has seen them free.
    pub fn wait_vacant(&mut self, count: usize) -> (r: WaitOutcome)
        requires
            count <= producer_capacity(*old(self)),
        ensures
            producer_looked(*old(self), *final(self)),
            r == WaitOutcome::Ready ==> seen_free(*final(self)) >= count,
    {
        self.ext_wait_vacant(count)
    }
}

/// Bytes leave a channel in the order they entered it, none duplicated or
/// reordered: what the consumer half has taken, popped or skipped, and what
/// the producer half of the same channel has put in agree byte for byte, the
/// shorter being a prefix of the longer.
pub proof fn lemma_fifo(p: RingProducer, c: RingConsumer)
    requires
        producer_channel(p) == consumer_channel(c),
        follows_stream(enqueued(p), producer_channel(p)),
        follows_stream(dequeued(c), consumer_channel(c)),
    ensures
        dequeued(c).len() <= enqueued(p).len() ==> dequeued(c) == enqueued(p).subrange(
            0,
            dequeued(c).len() as int,
        ),
        enqueued(p).len() <= dequeued(c).len() ==> enqueued(p) == dequeued(c).subrange(
            0,
            enqueued(p).len() as int,
        ),
{
    if dequeued(c).len() <= enqueued(p).len() {
        assert(dequeued(c) =~= enqueued(p).subrange(0, dequeued(c).len() as int));
    } else {
        assert(enqueued(p) =~= dequeued(c).subrange(0, enqueued(p).len() as int));
    }
}

} // verus!
