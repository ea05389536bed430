//! The capture buffer: a bounded store of the most recent interleaved samples.
//!
//! A producer appends blocks of samples; once the buffer is full every new
//! sample silently displaces the oldest one. A consumer copies the contents
//! out and works on the copy.
use crate::ring::{
    ring_capacity, ring_clear, ring_items, ring_len, ring_limit, ring_new, ring_push,
    ring_to_vec, ring_written, MAX_CAPACITY,
};
use ringbuffer::AllocRingBuffer;
use vstd::prelude::*;

verus! {

/// The capacity a buffer gets when `requested` is asked for: never less than
/// one sample, never more than `MAX_CAPACITY`.
pub open spec fn clamped_capacity(requested: nat) -> nat {
    if requested < 1 {
        1
    } else if requested > MAX_CAPACITY {
        MAX_CAPACITY as nat
    } else {
        requested
    }
}

/// The newest `capacity` items of `history`, or all of it where it is shorter.
pub open spec fn newest<T>(history: Seq<T>, capacity: nat) -> Seq<T> {
    if history.len() <= capacity {
        history
    } else {
        history.subrange(history.len() - capacity, history.len() as int)
    }
}

/// All blocks laid end to end, in the order they were pushed.
pub open spec fn joined<T>(blocks: Seq<Seq<T>>) -> Seq<T>
    decreases blocks.len(),
{
    if blocks.len() == 0 {
        Seq::empty()
    } else {
        joined(blocks.drop_last()) + blocks.last()
    }
}

/// What a buffer of the given capacity holds after the blocks were pushed one
/// after another onto `start`.
pub open spec fn after_pushes<T>(start: Seq<T>, blocks: Seq<Seq<T>>, capacity: nat) -> Seq<T>
    decreases blocks.len(),
{
    if blocks.len() == 0 {
        start
    } else {
        newest(after_pushes(start, blocks.drop_last(), capacity) + blocks.last(), capacity)
    }
}

/// Trimming before appending changes nothing once the result is trimmed again.
pub proof fn lemma_newest_absorbs<T>(history: Seq<T>, block: Seq<T>, capacity: nat)
    ensures
        newest(newest(history, capacity) + block, capacity) == newest(history + block, capacity),
{
    let kept = newest(history, capacity);
    assert(newest(kept + block, capacity) =~= newest(history + block, capacity));
}

/// Appending one item to at most `capacity` items and trimming drops the
/// oldest item exactly when the buffer was full.
pub proof fn lemma_newest_push<T>(held: Seq<T>, item: T, capacity: nat)
    requires
        1 <= capacity,
        held.len() <= capacity,
    ensures
        newest(held.push(item), capacity) == if held.len() == capacity {
            held.drop_first().push(item)
        } else {
            held.push(item)
        },
{
    if held.len() == capacity {
        assert(newest(held.push(item), capacity) =~= held.drop_first().push(item));
    }
}

/// Whatever was pushed, and in however many blocks, a buffer that started
/// empty never holds more than its capacity, and holds exactly the newest
/// `min(capacity, total)` of all pushed items, in the order they came.
pub proof fn lemma_pushes_keep_newest<T>(blocks: Seq<Seq<T>>, capacity: nat)
    ensures
        after_pushes(Seq::<T>::empty(), blocks, capacity) == newest(joined(blocks), capacity),
        after_pushes(Seq::<T>::empty(), blocks, capacity).len() <= capacity,
        after_pushes(Seq::<T>::empty(), blocks, capacity).len() == if joined(blocks).len()
            <= capacity {
            joined(blocks).len()
        } else {
            capacity
        },
    decreases blocks.len(),
{
    if blocks.len() > 0 {
        lemma_pushes_keep_newest(blocks.drop_last(), capacity);
        lemma_newest_absorbs(joined(blocks.drop_last()), blocks.last(), capacity);
    }
}

/// A fixed-capacity store of the most recent samples, each held as the bit
/// pattern of a 32-bit float.
pub struct CaptureBuffer {
    ring: AllocRingBuffer<u32>,
    written: usize,
}

impl CaptureBuffer {
    /// The samples held, oldest first.
    pub closed spec fn view(&self) -> Seq<u32> {
        ring_items(self.ring)
    }

    /// The most samples the buffer holds at once.
    pub closed spec fn spec_capacity(&self) -> nat {
        ring_limit(self.ring)
    }

    /// The buffer's invariant: a capacity within bounds that the contents do
    /// not exceed.
    pub closed spec fn wf(&self) -> bool {
        &&& 1 <= ring_limit(self.ring) <= MAX_CAPACITY
        &&& ring_items(self.ring).len() <= ring_limit(self.ring)
        &&& ring_written(self.ring) == self.written
    }

    /// A well-formed buffer has a capacity within bounds and never holds more
    /// than it.
    pub proof fn lemma_bounded(&self)
        requires
            self.wf(),
        ensures
            1 <= self.spec_capacity() <= MAX_CAPACITY,
            self@.len() <= self.spec_capacity(),
    {
    }

    /// An empty buffer; a capacity out of bounds is clamped, not refused.
    pub fn new(capacity: usize) -> (buffer: Self)
        ensures
            buffer.wf(),
            buffer@ == Seq::<u32>::empty(),
            buffer.spec_capacity() == clamped_capacity(capacity as nat),
    {
        let capacity = if capacity < 1 {
            1
        } else if capacity > MAX_CAPACITY {
            MAX_CAPACITY
        } else {
            capacity
        };
        CaptureBuffer { ring: ring_new(capacity), written: 0 }
    }

    /// The most samples the buffer holds at once.
    pub fn capacity(&self) -> (capacity: usize)
        ensures
            capacity == self.spec_capacity(),
    {
        ring_capacity(&self.ring)
    }

    /// The number of samples held.
    pub fn len(&self) -> (len: usize)
        ensures
            len == self@.len(),
    {
        ring_len(&self.ring)
    }

    /// Whether no sample is held.
    pub fn is_empty(&self) -> (empty: bool)
        ensures
            empty == (self@.len() == 0),
    {
        ring_len(&self.ring) == 0
    }

    /// Moves the contents into a fresh ring, so that the ring's count of
    /// pushes starts again from the number of samples held.
    fn renew(&mut self)
        requires
            old(self).wf(),
        ensures
            final(self).wf(),
            final(self)@ == old(self)@,
            final(self).spec_capacity() == old(self).spec_capacity(),
            final(self).written <= MAX_CAPACITY,
    {
        let items = ring_to_vec(&self.ring);
        let capacity = ring_capacity(&self.ring);
        let mut ring = ring_new(capacity);
        let mut i: usize = 0;
        while i < items.len()
            invariant
                i <= items.len() <= capacity <= MAX_CAPACITY,
                ring_items(ring) == items@.subrange(0, i as int),
                ring_limit(ring) == capacity,
                ring_written(ring) == i,
            decreases items.len() - i,
        {
            ring_push(&mut ring, items[i]);
            assert(items@.subrange(0, i as int).push(items@[i as int]) =~= items@.subrange(
                0,
                i + 1,
            ));
            i = i + 1;
        }
        assert(items@.subrange(0, i as int) =~= items@);
        self.ring = ring;
        self.written = i;
    }

    /// Appends one sample; a full buffer drops its oldest sample to make room.
    pub fn push_sample(&mut self, sample: u32)
        requires
            old(self).wf(),
        ensures
            final(self).wf(),
            final(self).spec_capacity() == old(self).spec_capacity(),
            final(self)@ == newest(old(self)@.push(sample), old(self).spec_capacity()),
    {
        if self.written == usize::MAX {
            self.renew();
        }
        proof {
            lemma_newest_push(self@, sample, self.spec_capacity());
        }
        ring_push(&mut self.ring, sample);
        self.written = self.written + 1;
    }

    /// Appends the samples in order; where the capacity is exceeded the oldest
    /// samples are dropped, so that the newest ones remain.
    pub fn push(&mut self, samples: &[u32])
        requires
            old(self).wf(),
        ensures
            final(self).wf(),
            final(self).spec_capacity() == old(self).spec_capacity(),
            final(self)@ == newest(old(self)@ + samples@, old(self).spec_capacity()),
    {
        let ghost start = self@;
        let ghost capacity = self.spec_capacity();
        let mut i: usize = 0;
        assert(start + samples@.subrange(0, 0) =~= start);
        while i < samples.len()
            invariant
                i <= samples.len(),
                self.wf(),
                self.spec_capacity() == capacity,
                start.len() <= capacity,
                self@ == newest(start + samples@.subrange(0, i as int), capacity),
            decreases samples.len() - i,
        {
            let ghost seen = start + samples@.subrange(0, i as int);
            self.push_sample(samples[i]);
            proof {
                lemma_newest_absorbs(seen, seq![samples@[i as int]], capacity);
                assert(newest(seen, capacity).push(samples@[i as int]) =~= newest(seen, capacity)
                    + seq![samples@[i as int]]);
                assert(seen + seq![samples@[i as int]] =~= start + samples@.subrange(0, i + 1));
            }
            i = i + 1;
        }
        assert(samples@.subrange(0, i as int) =~= samples@);
    }

    /// A copy of the samples held, oldest first.
    pub fn snapshot(&self) -> (samples: Vec<u32>)
        ensures
            samples@ == self@,
    {
        ring_to_vec(&self.ring)
    }

    /// Drops every sample and keeps the capacity.
    pub fn clear(&mut self)
        requires
            old(self).wf(),
        ensures
            final(self).wf(),
            final(self)@ == Seq::<u32>::empty(),
            final(self).spec_capacity() == old(self).spec_capacity(),
    {
        ring_clear(&mut self.ring);
        self.written = 0;
    }

    /// Drops every sample and takes a new capacity, clamped as in `new`.
    pub fn resize(&mut self, capacity: usize)
        ensures
            final(self).wf(),
            final(self)@ == Seq::<u32>::empty(),
            final(self).spec_capacity() == clamped_capacity(capacity as nat),
    {
        *self = CaptureBuffer::new(capacity);
    }
}

} // verus!
