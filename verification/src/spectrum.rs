//! The part of spectrum analysis that is independent of the sample values: a
//! transform of a real block mirrors itself, so only its lower half is kept.
use vstd::prelude::*;

verus! {

/// Number of bins kept from a transform of `block_len` points.
pub open spec fn half_len_spec(block_len: nat) -> nat {
    block_len / 2
}

/// Number of bins kept from a transform of `block_len` points.
pub fn half_len(block_len: usize) -> (bins: usize)
    ensures
        bins == half_len_spec(block_len as nat),
{
    block_len / 2
}

/// Drops the mirrored upper half of a transform's output, keeping the first
/// `len / 2` bins in order.
pub fn nyquist_truncate<T>(bins: &mut Vec<T>)
    ensures
        final(bins)@ == old(bins)@.subrange(0, half_len_spec(old(bins)@.len()) as int),
        final(bins)@.len() == half_len_spec(old(bins)@.len()),
{
    let keep = half_len(bins.len());
    bins.truncate(keep);
}

} // verus!
