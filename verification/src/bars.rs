//! Index arithmetic of the bar display: how many bars a spectrum gives, which
//! two bins a bar blends, and on which side of the baseline a channel is drawn.
use vstd::prelude::*;

verus! {

/// Number of bars drawn for a spectrum of `bins` values: one for every bin
/// but the last.
pub open spec fn bar_count_spec(bins: nat) -> nat {
    if bins == 0 {
        0
    } else {
        (bins - 1) as nat
    }
}

/// Number of bars drawn for a spectrum of `bins` values.
pub fn bar_count(bins: usize) -> (bars: usize)
    ensures
        bars == bar_count_spec(bins as nat),
{
    if bins == 0 {
        0
    } else {
        bins - 1
    }
}

/// The index nearest to `position` that a spectrum of `bins` values has.
pub open spec fn clamped_index(position: nat, bins: nat) -> nat
    recommends
        1 <= bins,
{
    if position < bins {
        position
    } else {
        (bins - 1) as nat
    }
}

/// The two adjacent bins that a bar at the whole-numbered position blends: the
/// bin at `position` and the one after it, each clamped to the spectrum.
pub fn neighbours(position: usize, bins: usize) -> (pair: (usize, usize))
    requires
        1 <= bins,
    ensures
        pair.0 == clamped_index(position as nat, bins as nat),
        pair.1 == clamped_index(position as nat + 1, bins as nat),
        pair.0 <= pair.1 < bins,
{
    if position < bins - 1 {
        (position, position + 1)
    } else {
        (bins - 1, bins - 1)
    }
}

/// The direction in which a channel's bars grow from the shared baseline: `1`
/// (upwards) for even channels, `-1` (downwards) for odd ones.
pub open spec fn mirror_sign_spec(channel: nat) -> int {
    if channel % 2 == 0 {
        1
    } else {
        -1
    }
}

/// The direction in which a channel's bars grow from the shared baseline.
pub fn mirror_sign(channel: usize) -> (sign: i8)
    ensures
        sign == mirror_sign_spec(channel as nat),
{
    if channel % 2 == 0 {
        1
    } else {
        -1
    }
}

/// The first channel is drawn upwards, the second downwards, and any two
/// neighbouring channels are mirror images of each other: the same magnitude
/// gives heights of opposite sign.
pub proof fn lemma_channels_mirror(channel: nat, magnitude: int)
    ensures
        mirror_sign_spec(0) == 1,
        mirror_sign_spec(1) == -1,
        magnitude * mirror_sign_spec(channel + 1) == -(magnitude * mirror_sign_spec(channel)),
        magnitude >= 0 ==> magnitude * mirror_sign_spec(0) >= 0 && magnitude * mirror_sign_spec(1)
            <= 0,
{
    assert(magnitude * 1 == magnitude) by (nonlinear_arith);
    assert(magnitude * (-1) == -magnitude) by (nonlinear_arith);
}

} // verus!
