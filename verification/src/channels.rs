//! Splitting an interleaved sample sequence into one sequence per channel.
use vstd::prelude::*;

verus! {

/// How many of `len` interleaved samples belong to `channel` when there are
/// `count` channels: the leading `len % count` channels get one sample more
/// than the others.
pub open spec fn channel_len(len: nat, count: nat, channel: nat) -> nat
    recommends
        1 <= count,
        channel < count,
{
    if channel < len % count {
        len / count + 1
    } else {
        len / count
    }
}

/// The samples of one channel: every `count`-th sample, starting at `channel`.
pub open spec fn channel_of<T>(samples: Seq<T>, count: nat, channel: nat) -> Seq<T>
    recommends
        1 <= count,
        channel < count,
{
    Seq::new(
        channel_len(samples.len(), count, channel),
        |k: int| samples[k * count + channel],
    )
}

/// The interleaved sequence split into `count` channels.
pub open spec fn split<T>(samples: Seq<T>, count: nat) -> Seq<Seq<T>>
    recommends
        1 <= count,
{
    Seq::new(count, |c: int| channel_of(samples, count, c as nat))
}

/// The lengths of the given sequences, added up.
pub open spec fn total_len<T>(parts: Seq<Seq<T>>) -> nat
    decreases parts.len(),
{
    if parts.len() == 0 {
        0
    } else {
        total_len(parts.drop_last()) + parts.last().len()
    }
}

/// The lengths of the first `upto` channels, added up.
pub open spec fn channels_total(len: nat, count: nat, upto: nat) -> nat
    recommends
        1 <= count,
        upto <= count,
    decreases upto,
{
    if upto == 0 {
        0
    } else {
        channels_total(len, count, (upto - 1) as nat) + channel_len(
            len,
            count,
            (upto - 1) as nat,
        )
    }
}

/// The position `slot * count + channel` lies inside the interleaved sequence
/// for every slot of the channel.
pub proof fn lemma_slot_in_range(len: nat, count: nat, channel: nat, slot: nat)
    requires
        1 <= count,
        channel < count,
        slot < channel_len(len, count, channel),
    ensures
        slot * count + channel < len,
        slot * count <= len,
{
    let per = len / count;
    let rem = len % count;
    assert(len == count * per + rem) by {
        vstd::arithmetic::div_mod::lemma_fundamental_div_mod(len as int, count as int);
    }
    if channel < rem {
        assert(slot * count <= per * count) by (nonlinear_arith)
            requires
                slot <= per,
        ;
        assert(per * count == count * per) by (nonlinear_arith);
    } else {
        assert(slot * count + count <= per * count) by (nonlinear_arith)
            requires
                slot + 1 <= per,
        ;
        assert(per * count == count * per) by (nonlinear_arith);
    }
}

/// Sample `i` lands in channel `i mod count`, at slot `i / count`.
pub proof fn lemma_sample_lands<T>(samples: Seq<T>, count: nat, i: nat)
    requires
        1 <= count,
        i < samples.len(),
    ensures
        i % count < count,
        i / count < channel_of(samples, count, i % count).len(),
        channel_of(samples, count, i % count)[(i / count) as int] == samples[i as int],
{
    let len = samples.len();
    let c = i % count;
    let k = i / count;
    assert(i == count * k + c) by {
        vstd::arithmetic::div_mod::lemma_fundamental_div_mod(i as int, count as int);
    }
    assert(len == count * (len / count) + len % count) by {
        vstd::arithmetic::div_mod::lemma_fundamental_div_mod(len as int, count as int);
    }
    assert(k * count == count * k) by (nonlinear_arith);
    assert(k <= len / count) by {
        vstd::arithmetic::div_mod::lemma_div_is_ordered(i as int, len as int, count as int);
    }
    if k == len / count {
        assert(c < len % count);
    }
    assert(k < channel_len(len, count, c));
}

/// The first `upto` channels hold `upto` full rounds of the sequence plus one
/// sample for each of them that the remainder still reaches.
pub proof fn lemma_channels_total(len: nat, count: nat, upto: nat)
    requires
        1 <= count,
        upto <= count,
    ensures
        channels_total(len, count, upto) == upto * (len / count) + if upto < len % count {
            upto
        } else {
            len % count
        },
    decreases upto,
{
    let per = len / count;
    if upto > 0 {
        let before = (upto - 1) as nat;
        lemma_channels_total(len, count, before);
        assert(upto * per == before * per + per) by (nonlinear_arith)
            requires
                upto == before + 1,
        ;
    } else {
        assert(upto * per == 0) by (nonlinear_arith)
            requires
                upto == 0,
        ;
    }
}

/// All channels together hold as many samples as there are: `channel_len`
/// summed over every channel gives `len`.
pub proof fn lemma_total_length(len: nat, count: nat)
    requires
        1 <= count,
    ensures
        channels_total(len, count, count) == len,
{
    lemma_channels_total(len, count, count);
    vstd::arithmetic::div_mod::lemma_fundamental_div_mod(len as int, count as int);
    assert(len % count < count) by {
        vstd::arithmetic::div_mod::lemma_mod_bound(len as int, count as int);
    }
}

/// The first `upto` sequences of a split hold `channels_total` samples.
proof fn lemma_split_prefix<T>(samples: Seq<T>, count: nat, upto: nat)
    requires
        1 <= count,
        upto <= count,
    ensures
        total_len(split(samples, count).subrange(0, upto as int)) == channels_total(
            samples.len(),
            count,
            upto,
        ),
    decreases upto,
{
    let parts = split(samples, count);
    if upto > 0 {
        let before = (upto - 1) as nat;
        lemma_split_prefix(samples, count, before);
        assert(parts.subrange(0, upto as int).drop_last() =~= parts.subrange(0, before as int));
        assert(parts.subrange(0, upto as int).last() == channel_of(samples, count, before));
    }
}

/// Splitting into `count` channels gives `count` sequences whose lengths add
/// up to the length of the interleaved sequence: no sample is lost or made up.
pub proof fn lemma_split_total<T>(samples: Seq<T>, count: nat)
    requires
        1 <= count,
    ensures
        split(samples, count).len() == count,
        total_len(split(samples, count)) == samples.len(),
{
    lemma_split_prefix(samples, count, count);
    lemma_total_length(samples.len(), count);
    assert(split(samples, count).subrange(0, count as int) =~= split(samples, count));
}

/// The channel count the display works with: one and two are taken as they
/// are, every other count is treated as mono.
pub fn effective_channels(channels: u16) -> (count: usize)
    ensures
        count == if channels == 2 {
            2usize
        } else {
            1usize
        },
{
    if channels == 2 {
        2
    } else {
        1
    }
}

/// Copies out one channel of an interleaved sequence.
pub fn channel<T: Copy>(samples: &[T], channel_count: usize, index: usize) -> (out: Vec<T>)
    requires
        1 <= channel_count,
        index < channel_count,
    ensures
        out@ == channel_of(samples@, channel_count as nat, index as nat),
{
    let len = samples.len();
    let per = len / channel_count;
    proof {
        vstd::arithmetic::div_mod::lemma_fundamental_div_mod(len as int, channel_count as int);
        assert(per <= channel_count * per) by (nonlinear_arith)
            requires
                1 <= channel_count,
        ;
    }
    let slots = if index < len % channel_count {
        per + 1
    } else {
        per
    };
    let mut out: Vec<T> = Vec::new();
    let mut slot: usize = 0;
    while slot < slots
        invariant
            1 <= channel_count,
            index < channel_count,
            len == samples@.len(),
            slots == channel_len(len as nat, channel_count as nat, index as nat),
            slot <= slots,
            out@ == channel_of(samples@, channel_count as nat, index as nat).subrange(
                0,
                slot as int,
            ),
        decreases slots - slot,
    {
        proof {
            lemma_slot_in_range(len as nat, channel_count as nat, index as nat, slot as nat);
        }
        out.push(samples[slot * channel_count + index]);
        assert(out@ =~= channel_of(samples@, channel_count as nat, index as nat).subrange(
            0,
            slot + 1,
        ));
        slot = slot + 1;
    }
    assert(out@ =~= channel_of(samples@, channel_count as nat, index as nat));
    out
}

/// Splits interleaved samples into `channel_count` sequences: sample `i` goes
/// to channel `i mod channel_count`. Where the count does not divide the
/// length, the trailing channels are one sample shorter.
pub fn deinterleave<T: Copy>(samples: &[T], channel_count: usize) -> (channels: Vec<Vec<T>>)
    requires
        1 <= channel_count,
    ensures
        channels@.len() == channel_count,
        forall|c: int|
            0 <= c < channel_count ==> (#[trigger] channels@[c])@ == channel_of(
                samples@,
                channel_count as nat,
                c as nat,
            ),
        channels@.map_values(|one: Vec<T>| one@) == split(samples@, channel_count as nat),
{
    let mut channels: Vec<Vec<T>> = Vec::new();
    let mut index: usize = 0;
    while index < channel_count
        invariant
            1 <= channel_count,
            index <= channel_count,
            channels@.len() == index,
            forall|c: int|
                0 <= c < index ==> (#[trigger] channels@[c])@ == channel_of(
                    samples@,
                    channel_count as nat,
                    c as nat,
                ),
        decreases channel_count - index,
    {
        let one = channel(samples, channel_count, index);
        channels.push(one);
        index = index + 1;
    }
    assert(channels@.map_values(|one: Vec<T>| one@) =~= split(samples@, channel_count as nat));
    channels
}

} // verus!
