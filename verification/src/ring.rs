//! The sample queue between the decoder and the output callback: a bounded
//! single-producer, single-consumer ring whose two halves live on different
//! threads. A sample travels as the bit pattern of a 32-bit float, so
//! silence is `0`.

use ringbuf::traits::Consumer;
use ringbuf::traits::Producer;
use ringbuf::traits::Split;
use ringbuf::HeapCons;
use ringbuf::HeapProd;
use ringbuf::HeapRb;
use vstd::prelude::*;

verus! {

/// Bit pattern of a silent sample.
pub const SILENCE: u32 = 0;

/// A sample queue that has not been split yet: a `ringbuf::HeapRb<u32>`.
#[verifier::external_body]
pub struct SampleRing {
    inner: HeapRb<u32>,
}

/// Writing half of the sample queue: a `ringbuf::HeapProd<u32>`.
#[verifier::external_body]
pub struct SampleProducer {
    inner: HeapProd<u32>,
}

/// Reading half of the sample queue: a `ringbuf::HeapCons<u32>`.
#[verifier::external_body]
pub struct SampleConsumer {
    inner: HeapCons<u32>,
}

/// Every sample that went into the queue through this half, oldest first.
/// What the queue holds at an instant is not a property of one half, since
/// the other half moves on its own thread; what one half has done is.
pub uninterp spec fn pushed_samples(producer: SampleProducer) -> Seq<u32>;

/// Every sample that came out of the queue through this half, oldest first.
pub uninterp spec fn popped_samples(consumer: SampleConsumer) -> Seq<u32>;

/// The number of samples that the queue was made for. It never changes.
pub uninterp spec fn ring_limit(ring: SampleRing) -> nat;

/// The number of samples that the queue of this half was made for.
pub uninterp spec fn producer_limit(producer: SampleProducer) -> nat;

/// The number of samples that the queue of this half was made for.
pub uninterp spec fn consumer_limit(consumer: SampleConsumer) -> nat;

/// `ringbuf::HeapRb::new`: a fresh, empty queue whose storage has room for
/// just `capacity` samples. The constructor panics on a zero capacity,
/// which is left out here.
#[verifier::external_body]
pub(crate) fn ring_new(capacity: usize) -> (ring: SampleRing)
    requires
        capacity > 0,
    ensures
        ring_limit(ring) == capacity,
{
    SampleRing { inner: HeapRb::<u32>::new(capacity) }
}

/// `Split::split` on a queue that nobody has used: its two halves, both on
/// the one storage. Nothing has passed through either.
#[verifier::external_body]
pub(crate) fn ring_split(ring: SampleRing) -> (halves: (SampleProducer, SampleConsumer))
    ensures
        pushed_samples(halves.0) == Seq::<u32>::empty(),
        popped_samples(halves.1) == Seq::<u32>::empty(),
        producer_limit(halves.0) == ring_limit(ring),
        consumer_limit(halves.1) == ring_limit(ring),
{
    let (producer, consumer) = ring.inner.split();
    (SampleProducer { inner: producer }, SampleConsumer { inner: consumer })
}

/// `Producer::try_push` on the writing half: either the sample is appended
/// to the queue, or the queue was full, nothing went in and the sample comes
/// back as the error.
#[verifier::external_body]
pub(crate) fn ring_try_push(producer: &mut SampleProducer, sample: u32) -> (pushed: Result<(), u32>)
    ensures
        pushed is Ok ==> pushed_samples(*final(producer)) == pushed_samples(*old(producer)).push(sample),
        pushed is Err ==> pushed_samples(*final(producer)) == pushed_samples(*old(producer)),
        pushed is Err ==> pushed->Err_0 == sample,
        producer_limit(*final(producer)) == producer_limit(*old(producer)),
{
    producer.inner.try_push(sample)
}

/// `Consumer::try_pop` on the reading half: either the eldest sample leaves
/// the queue and is returned, or the queue was empty and nothing came out.
#[verifier::external_body]
pub(crate) fn ring_try_pop(consumer: &mut SampleConsumer) -> (popped: Option<u32>)
    ensures
        popped is Some ==> popped_samples(*final(consumer)) == popped_samples(*old(consumer)).push(popped->Some_0),
        popped is None ==> popped_samples(*final(consumer)) == popped_samples(*old(consumer)),
        consumer_limit(*final(consumer)) == consumer_limit(*old(consumer)),
{
    consumer.inner.try_pop()
}

/// The sample a slot of a frame gets when the queue answered `popped`: the
/// sample itself, or silence where the queue was empty.
pub open spec fn sample_or_silence(popped: Option<u32>) -> u32 {
    match popped {
        Some(s) => s,
        None => SILENCE,
    }
}

/// The samples among `answers` that the queue did hand out, in order.
pub open spec fn handed_out(answers: Seq<Option<u32>>) -> Seq<u32>
    decreases answers.len(),
{
    if answers.len() == 0 {
        Seq::<u32>::empty()
    } else {
        let rest = handed_out(answers.drop_last());
        match answers.last() {
            Some(s) => rest.push(s),
            None => rest,
        }
    }
}

/// Makes a queue for just `capacity` samples, as its two halves; a queue
/// of no samples cannot be made.
pub fn sample_ring(capacity: usize) -> (ring: Option<(SampleProducer, SampleConsumer)>)
    ensures
        ring is Some <==> capacity > 0,
        ring is Some ==> pushed_samples(ring->Some_0.0) == Seq::<u32>::empty(),
        ring is Some ==> popped_samples(ring->Some_0.1) == Seq::<u32>::empty(),
        ring is Some ==> producer_limit(ring->Some_0.0) == capacity,
        ring is Some ==> consumer_limit(ring->Some_0.1) == capacity,
{
    if capacity == 0 {
        None
    } else {
        Some(ring_split(ring_new(capacity)))
    }
}

} // verus!
