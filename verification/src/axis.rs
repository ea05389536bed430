//! The frequency axis: where gridlines fall between zero and the Nyquist
//! frequency.
use vstd::prelude::*;

verus! {

/// Distance between two gridlines, in hertz.
pub const GRID_STEP_HZ: u32 = 2000;

/// The highest frequency a stream sampled at `sample_rate` can carry.
pub open spec fn nyquist_spec(sample_rate: nat) -> nat {
    sample_rate / 2
}

/// The highest frequency a stream sampled at `sample_rate` can carry.
pub fn nyquist(sample_rate: u32) -> (limit: u32)
    ensures
        limit == nyquist_spec(sample_rate as nat),
{
    sample_rate / 2
}

/// The gridline frequencies of a stream: every multiple of `GRID_STEP_HZ` from
/// zero up to the Nyquist frequency, in rising order.
pub open spec fn grid_frequencies_spec(sample_rate: nat) -> Seq<u32> {
    Seq::new(
        nyquist_spec(sample_rate) / (GRID_STEP_HZ as nat) + 1,
        |k: int| (k * GRID_STEP_HZ) as u32,
    )
}

/// The gridline frequencies of a stream, in hertz.
pub fn grid_frequencies(sample_rate: u32) -> (marks: Vec<u32>)
    ensures
        marks@ == grid_frequencies_spec(sample_rate as nat),
        forall|k: int| 0 <= k < marks@.len() ==> marks@[k] == k * GRID_STEP_HZ,
        forall|k: int| 0 <= k < marks@.len() ==> marks@[k] <= nyquist_spec(sample_rate as nat),
{
    let limit = nyquist(sample_rate);
    let count: u32 = limit / GRID_STEP_HZ + 1;
    let mut marks: Vec<u32> = Vec::new();
    let mut k: u32 = 0;
    while k < count
        invariant
            limit == nyquist_spec(sample_rate as nat),
            count == limit / GRID_STEP_HZ + 1,
            k <= count,
            marks@.len() == k,
            forall|j: int| 0 <= j < k ==> marks@[j] == j * GRID_STEP_HZ,
            forall|j: int| 0 <= j < k ==> marks@[j] <= limit,
        decreases count - k,
    {
        assert(k * GRID_STEP_HZ <= limit) by (nonlinear_arith)
            requires
                k <= limit / GRID_STEP_HZ,
                GRID_STEP_HZ == 2000,
        ;
        marks.push(k * GRID_STEP_HZ);
        k = k + 1;
    }
    assert(marks@ =~= grid_frequencies_spec(sample_rate as nat));
    marks
}

} // verus!
