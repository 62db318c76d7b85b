//! The playback sample ring: a bounded single-producer/single-consumer
//! buffer between the decode thread and the audio callback.
//!
//! The two halves of the ring are held in opaque wrapper structs (the
//! buffer crate's producer and consumer types carry their storage through
//! generic parameters Verus cannot read). Their observable histories — the
//! samples this producer has pushed, the samples this consumer has
//! popped — are named below, and every wrapper states its effect on them,
//! whatever the other half does concurrently. A full ring never panics:
//! a rejected sample is handed back to the caller.

use vstd::prelude::*;

verus! {

/// The producer half of a playback ring.
#[verifier::external_body]
pub struct RingProducer {
    inner: ringbuf::HeapProducer<i64>,
}

/// The consumer half of a playback ring.
#[verifier::external_body]
pub struct RingConsumer {
    inner: ringbuf::HeapConsumer<i64>,
}

/// The fixed capacity the ring was created with.
pub uninterp spec fn ring_capacity(p: RingProducer) -> nat;

/// Every sample this producer has pushed successfully, oldest first.
pub uninterp spec fn pushed_log(p: RingProducer) -> Seq<i64>;

/// Every sample this consumer has popped, oldest first.
pub uninterp spec fn popped_log(c: RingConsumer) -> Seq<i64>;

/// Relies on `ringbuf::HeapRb::new` and `split`: a bounded ring of the
/// given capacity with nothing yet pushed or popped. `new` panics on a
/// zero capacity, so that is excluded here.
#[verifier::external_body]
pub fn new_ring(capacity: usize) -> (r: (RingProducer, RingConsumer))
    requires
        capacity >= 1,
    ensures
        ring_capacity(r.0) == capacity,
        pushed_log(r.0) == Seq::<i64>::empty(),
        popped_log(r.1) == Seq::<i64>::empty(),
{
    let rb = ringbuf::HeapRb::new(capacity);
    let (producer, consumer) = rb.split();
    (RingProducer { inner: producer }, RingConsumer { inner: consumer })
}

/// Relies on `ringbuf::Producer::push`: appends the sample and returns
/// `Ok` when the ring has space at that moment, else returns the sample
/// back unchanged — it never panics and never blocks.
#[verifier::external_body]
fn try_push(p: &mut RingProducer, v: i64) -> (r: Result<(), i64>)
    ensures
        ring_capacity(*final(p)) == ring_capacity(*old(p)),
        r is Ok ==> pushed_log(*final(p)) == pushed_log(*old(p)).push(v),
        r is Err ==> pushed_log(*final(p)) == pushed_log(*old(p)),
        r matches Err(w) ==> w == v,
{
    p.inner.push(v)
}

/// Relies on `ringbuf::Consumer::pop`: removes and returns the oldest
/// sample when the ring is nonempty at that moment, else returns `None` —
/// it never panics and never blocks.
#[verifier::external_body]
fn try_pop(c: &mut RingConsumer) -> (r: Option<i64>)
    ensures
        r matches Some(v) ==> popped_log(*final(c)) == popped_log(*old(c)).push(v),
        r is None ==> popped_log(*final(c)) == popped_log(*old(c)),
{
    c.inner.pop()
}

/// The audio callback's read: the next sample, or silence on underrun, so
/// the callback never waits for the producer.
pub fn pop_or_silence(c: &mut RingConsumer) -> (r: i64)
    ensures
        popped_log(*final(c)) == popped_log(*old(c)).push(r)
            || (popped_log(*final(c)) == popped_log(*old(c)) && r == 0),
{
    match try_pop(c) {
        Some(v) => v,
        None => 0,
    }
}

/// Push samples of `block` starting at `from` until the ring rejects one,
/// and return the index of the first sample not yet pushed. The pushed
/// samples extend the producer's history in order; a full ring only stops
/// progress, it never panics. The caller retries from the returned index
/// once the consumer has drained some samples.
pub fn push_available(p: &mut RingProducer, block: &Vec<i64>, from: usize) -> (n: usize)
    requires
        from <= block@.len(),
    ensures
        from <= n <= block@.len(),
        ring_capacity(*final(p)) == ring_capacity(*old(p)),
        pushed_log(*final(p)) == pushed_log(*old(p)) + block@.subrange(from as int, n as int),
{
    let mut i: usize = from;
    proof {
        assert(pushed_log(*p) =~= pushed_log(*p) + block@.subrange(from as int, from as int));
    }
    while i < block.len()
        invariant
            from <= i <= block@.len(),
            ring_capacity(*p) == ring_capacity(*old(p)),
            pushed_log(*p) == pushed_log(*old(p)) + block@.subrange(from as int, i as int),
        decreases block@.len() - i,
    {
        let v: i64 = block[i];
        let res: Result<(), i64> = try_push(p, v);
        if res.is_err() {
            return i;
        }
        proof {
            assert(block@.subrange(from as int, i as int).push(block@[i as int])
                =~= block@.subrange(from as int, i as int + 1));
            assert(pushed_log(*p)
                =~= pushed_log(*old(p)) + block@.subrange(from as int, i as int + 1));
        }
        i = i + 1;
    }
    i
}

} // verus!
