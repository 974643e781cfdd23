//! The audio path: from a resampled frame, through the sample ring, to the
//! hardware callback's buffer.
//!
//! The ring is `ringbuf`'s lock-free single-producer single-consumer buffer.
//! It holds 32-bit words: a sample travels through it as its bit pattern.
//! Its two halves live on different threads, so what one half finds depends
//! on what the other has done in the meantime. The contracts here therefore
//! speak of what each half can know by itself. The producer knows the stream
//! it has written and the room it has been shown, which the consumer can
//! only add to. The consumer knows the answers its pops have got, one after
//! another; whether a pop finds a sample is the ring's to say, and what is
//! made of each answer is fixed here.

use vstd::prelude::*;
use crate::error::PlaybackError;
use crate::sample_format::{ResampleFormat, SampleKind, SampleLayout};

verus! {

/// The number of samples the ring between decoder and hardware holds.
pub const AUDIO_RING_CAPACITY: usize = 8192;

/// `ringbuf::RingBuffer`, the ring before it is split. Opaque here.
#[verifier::external_type_specification]
#[verifier::external_body]
#[verifier::reject_recursive_types(T)]
pub struct ExRingBuffer<T: Sized>(ringbuf::RingBuffer<T>);

/// `ringbuf::Producer`, the half of a ring that pushes. Opaque here.
#[verifier::external_type_specification]
#[verifier::external_body]
#[verifier::reject_recursive_types(T)]
pub struct ExProducer<T>(ringbuf::Producer<T>);

/// `ringbuf::Consumer`, the half of a ring that pops. Opaque here.
#[verifier::external_type_specification]
#[verifier::external_body]
#[verifier::reject_recursive_types(T)]
pub struct ExConsumer<T>(ringbuf::Consumer<T>);

/// The number of samples that a ring not yet split holds at most.
pub uninterp spec fn ring_capacity(ring: ringbuf::RingBuffer<u32>) -> nat;

/// The number of free slots of a ring that has not been split yet.
pub uninterp spec fn ring_free(ring: ringbuf::RingBuffer<u32>) -> nat;

/// The number of samples that a producer's ring holds at most. It never
/// changes.
pub uninterp spec fn producer_capacity(producer: ringbuf::Producer<u32>) -> nat;

/// The samples written through a producer since it was made, oldest first.
/// The ring holds the end of this stream: the part the consumer has not
/// popped yet.
pub uninterp spec fn ring_written(producer: ringbuf::Producer<u32>) -> Seq<u32>;

/// The room a producer can count on: the free slots it was last shown, less
/// what it has pushed since. The consumer frees slots and takes none, so the
/// ring has at least this many free slots whenever the producer comes back.
pub uninterp spec fn ring_room(producer: ringbuf::Producer<u32>) -> nat;

/// The answers a consumer's pops have got since it was made, in the order
/// of the pops: a sample each time the ring had one, `None` each time it was
/// found empty.
pub uninterp spec fn ring_answers(consumer: ringbuf::Consumer<u32>) -> Seq<Option<u32>>;

/// What a producer can know of how full its ring is. The room it can count
/// on is never more than the capacity, so the ring never holds more than it
/// has slots for; and the slots the producer must take for occupied, the
/// capacity less that room, are never more than the samples it has written,
/// so the ring is never taken to hold more than was pushed.
pub open spec fn room_within_bounds(producer: ringbuf::Producer<u32>) -> bool {
    ring_room(producer) <= producer_capacity(producer) <= ring_room(producer) + ring_written(
        producer,
    ).len()
}

/// `ringbuf::RingBuffer::new`: an empty ring for `capacity` samples, all of
/// its slots free. The capacity is kept below `usize::MAX` because the ring
/// allocates one slot more than it holds; like every allocation, this one
/// ends the process if the machine cannot serve it.
#[verifier::external_body]
fn ring_new(capacity: usize) -> (ring: ringbuf::RingBuffer<u32>)
    requires
        capacity < usize::MAX,
    ensures
        ring_capacity(ring) == capacity,
        ring_free(ring) == capacity,
{
    ringbuf::RingBuffer::new(capacity)
}

/// `ringbuf::RingBuffer::split`: the ring's two halves. The producer's ring
/// is this ring; it has written nothing yet and can count on every slot that
/// was free. The consumer has popped nothing yet.
#[verifier::external_body]
fn ring_split(ring: ringbuf::RingBuffer<u32>) -> (halves: (
    ringbuf::Producer<u32>,
    ringbuf::Consumer<u32>,
))
    ensures
        producer_capacity(halves.0) == ring_capacity(ring),
        ring_written(halves.0) == Seq::<u32>::empty(),
        ring_room(halves.0) == ring_free(ring),
        ring_answers(halves.1) == Seq::<Option<u32>>::empty(),
{
    ring.split()
}

/// `ringbuf::Consumer::pop`: the oldest sample in the ring, or `None` when
/// the ring is empty at that moment. Which of the two comes back depends on
/// the producer's progress and is not claimed; the answer, whatever it is,
/// is the next in the run of this consumer's answers.
#[verifier::external_body]
fn ring_pop(samples: &mut ringbuf::Consumer<u32>) -> (popped: Option<u32>)
    ensures
        ring_answers(*final(samples)) == ring_answers(*old(samples)).push(popped),
{
    samples.pop()
}

/// `ringbuf::Producer::remaining`: the free space the producer sees now. It
/// is at least the room the producer could count on before, since only the
/// consumer has touched the ring in between, and at most the capacity. It is
/// the room the producer can count on from here. Nothing is written.
#[verifier::external_body]
fn ring_remaining(producer: &mut ringbuf::Producer<u32>) -> (remaining: usize)
    ensures
        ring_room(*old(producer)) <= remaining <= producer_capacity(*old(producer)),
        producer_capacity(*final(producer)) == producer_capacity(*old(producer)),
        ring_room(*final(producer)) == remaining,
        ring_written(*final(producer)) == ring_written(*old(producer)),
{
    producer.remaining()
}

/// `ringbuf::Producer::push_slice`: appends as many of `samples` as fit, from
/// the front, and returns how many that was. What fits is at least the room
/// the producer could count on, so a chunk within that room goes in whole.
/// The written stream grows by the samples taken, and the room shrinks by
/// their number.
#[verifier::external_body]
fn ring_push_slice(producer: &mut ringbuf::Producer<u32>, samples: &[u32]) -> (pushed: usize)
    ensures
        pushed <= samples@.len(),
        samples@.len() <= ring_room(*old(producer)) ==> pushed == samples@.len(),
        producer_capacity(*final(producer)) == producer_capacity(*old(producer)),
        ring_written(*final(producer)) == ring_written(*old(producer)) + samples@.take(
            pushed as int,
        ),
        ring_room(*final(producer)) == if pushed <= ring_room(*old(producer)) {
            ring_room(*old(producer)) - pushed
        } else {
            0
        },
{
    producer.push_slice(samples)
}

/// The two halves of a fresh, empty sample ring of `AUDIO_RING_CAPACITY`
/// samples: the producer for the decode thread, which has written nothing
/// and has the whole ring for room, and the consumer for the hardware
/// callback, which has popped nothing.
pub fn audio_ring() -> (halves: (ringbuf::Producer<u32>, ringbuf::Consumer<u32>))
    ensures
        producer_capacity(halves.0) == AUDIO_RING_CAPACITY,
        ring_written(halves.0) == Seq::<u32>::empty(),
        ring_room(halves.0) == AUDIO_RING_CAPACITY,
        room_within_bounds(halves.0),
        ring_answers(halves.1) == Seq::<Option<u32>>::empty(),
{
    ring_split(ring_new(AUDIO_RING_CAPACITY))
}

/// What goes into one slot of the hardware buffer: the sample that was
/// popped, or silence when the ring had none to give.
pub open spec fn slot_value<T>(popped: Option<T>, silence: T) -> T {
    match popped {
        Some(sample) => sample,
        None => silence,
    }
}

/// The number of underruns among a run of pops.
pub open spec fn underrun_count<T>(popped: Seq<Option<T>>) -> nat
    decreases popped.len(),
{
    if popped.len() == 0 {
        0
    } else {
        underrun_count(popped.drop_last()) + if popped.last() is None {
            1nat
        } else {
            0nat
        }
    }
}

/// Whether `data` is what a run of pops fills a buffer with: slot by slot the
/// popped sample, and silence in each slot whose pop found the ring empty.
pub open spec fn filled_from<T>(data: Seq<T>, popped: Seq<Option<T>>, silence: T) -> bool {
    &&& data.len() == popped.len()
    &&& forall|i: int| 0 <= i < data.len() ==> data[i] == slot_value(#[trigger] popped[i], silence)
}

/// An underrun is heard as silence and as nothing else, and a sample that was
/// popped reaches the buffer as it is: in a buffer filled from a run of pops,
/// a slot whose pop found the ring empty holds the silence value, and every
/// other slot holds the very sample that its pop returned.
pub proof fn lemma_underrun_is_silence<T>(
    data: Seq<T>,
    popped: Seq<Option<T>>,
    silence: T,
    slot: int,
)
    requires
        filled_from(data, popped, silence),
        0 <= slot < data.len(),
    ensures
        popped[slot] is None ==> data[slot] == silence,
        popped[slot] is Some ==> data[slot] == popped[slot]->Some_0,
{
}

/// The value for one slot of the hardware buffer, given what the ring gave:
/// the sample itself, or `silence` on an underrun.
pub fn sample_or_silence<T>(popped: Option<T>, silence: T) -> (sample: T)
    ensures
        sample == slot_value(popped, silence),
{
    match popped {
        Some(sample) => sample,
        None => silence,
    }
}

/// The answers a consumer got between two of its states: those of `after`
/// that `before` did not have yet.
pub open spec fn answers_since(
    before: ringbuf::Consumer<u32>,
    after: ringbuf::Consumer<u32>,
) -> Seq<Option<u32>> {
    ring_answers(after).skip(ring_answers(before).len() as int)
}

/// How the hardware cuts its callbacks makes no difference: a buffer filled
/// in two parts from two runs of pops is the buffer filled in one go from
/// the two runs on end, and its underruns are those of the two parts.
pub proof fn lemma_filled_in_parts<T>(
    first: Seq<T>,
    first_run: Seq<Option<T>>,
    second: Seq<T>,
    second_run: Seq<Option<T>>,
    silence: T,
)
    requires
        filled_from(first, first_run, silence),
        filled_from(second, second_run, silence),
    ensures
        filled_from(first + second, first_run + second_run, silence),
        underrun_count(first_run + second_run) == underrun_count(first_run) + underrun_count(
            second_run,
        ),
    decreases second_run.len(),
{
    if second_run.len() == 0 {
        assert(first_run + second_run =~= first_run);
    } else {
        lemma_filled_in_parts(
            first,
            first_run,
            second.drop_last(),
            second_run.drop_last(),
            silence,
        );
        assert((first_run + second_run).drop_last() =~= first_run + second_run.drop_last());
    }
}

/// Fills the hardware's buffer `data` from the ring, front to back, with
/// exactly one pop per slot. A slot whose pop finds the ring empty gets
/// `silence`, the format's equilibrium value; every other slot gets the
/// sample that its pop returned. The callback never waits. Returns the
/// number of slots that were filled with silence for want of a sample.
///
/// Whether a pop finds a sample is the ring's to say. The consumer's run of
/// answers grows by one answer per slot, the buffer is filled from exactly
/// these answers in their order, and the count is the number of them that
/// were empty. A buffer without slots pops nothing.
pub fn write_audio(data: &mut [u32], samples: &mut ringbuf::Consumer<u32>, silence: u32) -> (starved:
    usize)
    ensures
        final(data)@.len() == old(data)@.len(),
        ring_answers(*old(samples)).is_prefix_of(ring_answers(*final(samples))),
        ring_answers(*final(samples)).len() == ring_answers(*old(samples)).len() + old(
            data,
        )@.len(),
        filled_from(final(data)@, answers_since(*old(samples), *final(samples)), silence),
        starved == underrun_count(answers_since(*old(samples), *final(samples))),
{
    let count = data.len();
    let mut starved: usize = 0;
    let mut next: usize = 0;
    let ghost mut popped_so_far: Seq<Option<u32>> = Seq::empty();
    assert(ring_answers(*samples) =~= ring_answers(*old(samples)) + popped_so_far);
    while next < count
        invariant
            count == data@.len(),
            data@.len() == old(data)@.len(),
            next <= count,
            popped_so_far.len() == next,
            ring_answers(*samples) == ring_answers(*old(samples)) + popped_so_far,
            starved == underrun_count(popped_so_far),
            starved <= next,
            forall|i: int|
                0 <= i < next ==> data@[i] == slot_value(#[trigger] popped_so_far[i], silence),
        decreases count - next,
    {
        let popped = ring_pop(samples);
        if popped.is_none() {
            starved += 1;
        }
        data[next] = sample_or_silence(popped, silence);
        proof {
            let ghost earlier = popped_so_far;
            popped_so_far = popped_so_far.push(popped);
            assert(popped_so_far.drop_last() =~= earlier);
            assert(ring_answers(*samples) =~= ring_answers(*old(samples)) + popped_so_far);
        }
        next += 1;
    }
    assert(answers_since(*old(samples), *samples) =~= popped_so_far);
    starved
}

/// Whether a chunk of `pending` samples may be pushed when the ring reports
/// `remaining` free slots: only when all of it fits.
pub open spec fn fits(remaining: usize, pending: usize) -> bool {
    remaining >= pending
}

/// Whether the decode producer may push a chunk of `pending` samples, having
/// seen `remaining` free slots in the ring. When it may not, it waits a
/// moment and looks again; it never pushes a part and never drops a sample.
pub fn has_room(remaining: usize, pending: usize) -> (room: bool)
    ensures
        room == fits(remaining, pending),
{
    remaining >= pending
}

/// Offers a chunk of samples to the ring. The producer looks at the free
/// space. If the whole chunk fits, it is pushed, whole and in order, and the
/// result is its length; if not, nothing is pushed and the result is `None`,
/// for the caller to wait and offer the same chunk again. A part of a chunk
/// is never pushed.
///
/// How much space is free depends on the consumer, but it never falls below
/// the room the producer could count on and never exceeds the capacity: a
/// chunk within that room always goes through, and a chunk beyond the
/// capacity never does. After a refusal the producer can count on the space
/// it saw, which was too little for the chunk; after a push, on that space
/// less the chunk. Either way the room stays within its bounds: the ring is
/// never taken to hold more than its capacity, nor more than was written.
pub fn try_feed(producer: &mut ringbuf::Producer<u32>, samples: &[u32]) -> (pushed: Option<
    usize,
>)
    ensures
        producer_capacity(*final(producer)) == producer_capacity(*old(producer)),
        room_within_bounds(*old(producer)) ==> room_within_bounds(*final(producer)),
        samples@.len() <= ring_room(*old(producer)) ==> pushed is Some,
        samples@.len() > producer_capacity(*old(producer)) ==> pushed is None,
        match pushed {
            Some(taken) => {
                &&& taken == samples@.len()
                &&& ring_written(*final(producer)) == ring_written(*old(producer)) + samples@
                &&& ring_room(*final(producer)) + samples@.len() >= ring_room(*old(producer))
            },
            None => {
                &&& ring_written(*final(producer)) == ring_written(*old(producer))
                &&& ring_room(*old(producer)) <= ring_room(*final(producer)) < samples@.len()
            },
        },
{
    let remaining = ring_remaining(producer);
    if has_room(remaining, samples.len()) {
        let taken = ring_push_slice(producer, samples);
        assert(samples@.take(taken as int) =~= samples@);
        Some(taken)
    } else {
        None
    }
}

/// A decoded or resampled audio frame, as far as the player reads it: its
/// format, its channel count, the number of samples per channel, and its
/// first plane.
#[derive(Debug)]
pub struct AudioFrame<T> {
    pub format: ResampleFormat,
    pub channels: u16,
    pub samples: usize,
    pub plane: Vec<T>,
}

/// The interleaved samples of a frame, or why it has none to give: a planar
/// frame has no interleaved plane; samples of another type than `kind` cannot
/// be read as `kind`; and a plane shorter than `samples` times `channels`
/// does not hold what the frame claims.
pub open spec fn packed_samples<T>(frame: AudioFrame<T>, kind: SampleKind) -> Result<
    Seq<T>,
    PlaybackError,
> {
    if frame.format.layout != SampleLayout::Packed {
        Err(PlaybackError::PlanarAudio)
    } else if frame.format.kind != kind {
        Err(PlaybackError::SampleTypeMismatch)
    } else if frame.samples * frame.channels > frame.plane@.len() {
        Err(PlaybackError::MalformedFrame)
    } else {
        Ok(frame.plane@.take(frame.samples * frame.channels))
    }
}

/// The samples of a packed frame, all channels interleaved: the first
/// `samples` times `channels` entries of its plane, read as samples of type
/// `kind`. Fails on a planar frame, on a frame of another sample type, and on
/// a plane that is too short, in that order.
pub fn packed<T>(frame: &AudioFrame<T>, kind: SampleKind) -> (samples: Result<
    &[T],
    PlaybackError,
>)
    ensures
        match samples {
            Ok(slice) => packed_samples(*frame, kind) == Ok::<Seq<T>, PlaybackError>(slice@),
            Err(error) => packed_samples(*frame, kind) == Err::<Seq<T>, PlaybackError>(error),
        },
{
    if !frame.format.is_packed() {
        return Err(PlaybackError::PlanarAudio);
    }
    if frame.format.kind != kind {
        return Err(PlaybackError::SampleTypeMismatch);
    }
    let channels: usize = frame.channels as usize;
    match frame.samples.checked_mul(channels) {
        Some(count) => {
            if count > frame.plane.len() {
                Err(PlaybackError::MalformedFrame)
            } else {
                let slice = vstd::slice::slice_subrange(frame.plane.as_slice(), 0, count);
                assert(slice@ =~= frame.plane@.take(count as int));
                Ok(slice)
            }
        },
        None => Err(PlaybackError::MalformedFrame),
    }
}

} // verus!
