//! The ring buffer that stores captured samples, and what is taken on trust
//! about it.
use ringbuffer::AllocRingBuffer;
use ringbuffer::RingBuffer;
use vstd::prelude::*;

verus! {

#[verifier::external_type_specification]
#[verifier::external_body]
#[verifier::reject_recursive_types(T)]
pub struct ExAllocRingBuffer<T>(AllocRingBuffer<T>);

/// The items a ring holds, oldest first.
pub uninterp spec fn ring_items(ring: AllocRingBuffer<u32>) -> Seq<u32>;

/// The capacity a ring was made with.
pub uninterp spec fn ring_limit(ring: AllocRingBuffer<u32>) -> nat;

/// The number of pushes a ring has counted since it was made or last cleared.
pub uninterp spec fn ring_written(ring: AllocRingBuffer<u32>) -> nat;

/// Largest capacity a ring is made with: its backing store is rounded up to a
/// power of two, and `2^28` four-byte items still fit a 32-bit address space.
pub const MAX_CAPACITY: usize = 0x1000_0000;

/// `AllocRingBuffer::new`: an empty ring of the given capacity. The call panics
/// on a capacity of zero and on one whose rounded-up allocation has no layout,
/// so both are left out.
#[verifier::external_body]
pub(crate) fn ring_new(capacity: usize) -> (ring: AllocRingBuffer<u32>)
    requires
        1 <= capacity <= MAX_CAPACITY,
    ensures
        ring_items(ring) == Seq::<u32>::empty(),
        ring_limit(ring) == capacity,
        ring_written(ring) == 0,
{
    AllocRingBuffer::new(capacity)
}

/// `RingBuffer::push` on an `AllocRingBuffer`: the value becomes the newest
/// item; a full ring first drops its oldest one. The ring counts its pushes in
/// a machine word, which must not overflow.
#[verifier::external_body]
pub(crate) fn ring_push(ring: &mut AllocRingBuffer<u32>, value: u32)
    requires
        ring_written(*old(ring)) < usize::MAX,
    ensures
        ring_limit(*final(ring)) == ring_limit(*old(ring)),
        ring_written(*final(ring)) == ring_written(*old(ring)) + 1,
        ring_items(*final(ring)) == if ring_items(*old(ring)).len() == ring_limit(*old(ring)) {
            ring_items(*old(ring)).drop_first().push(value)
        } else {
            ring_items(*old(ring)).push(value)
        },
{
    ring.push(value)
}

/// `RingBuffer::clear` on an `AllocRingBuffer`: every item leaves, the capacity
/// stays, and the push count starts again at zero.
#[verifier::external_body]
pub(crate) fn ring_clear(ring: &mut AllocRingBuffer<u32>)
    ensures
        ring_items(*final(ring)) == Seq::<u32>::empty(),
        ring_limit(*final(ring)) == ring_limit(*old(ring)),
        ring_written(*final(ring)) == 0,
{
    ring.clear()
}

/// `RingBuffer::to_vec` on an `AllocRingBuffer`: a copy of the items, oldest
/// first.
#[verifier::external_body]
pub(crate) fn ring_to_vec(ring: &AllocRingBuffer<u32>) -> (items: Vec<u32>)
    ensures
        items@ == ring_items(*ring),
{
    ring.to_vec()
}

/// `RingBuffer::len` on an `AllocRingBuffer`: the number of items held.
#[verifier::external_body]
pub(crate) fn ring_len(ring: &AllocRingBuffer<u32>) -> (len: usize)
    ensures
        len == ring_items(*ring).len(),
{
    ring.len()
}

/// `RingBuffer::capacity` on an `AllocRingBuffer`: the capacity it was made
/// with.
#[verifier::external_body]
pub(crate) fn ring_capacity(ring: &AllocRingBuffer<u32>) -> (capacity: usize)
    ensures
        capacity == ring_limit(*ring),
{
    ring.capacity()
}

} // verus!
