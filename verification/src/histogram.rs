use vstd::prelude::*;

use crate::imaging::{decode_luma8, luma8_levels};

verus! {

/// Number of brightness levels, and of histogram bins.
pub const LEVELS: usize = 256;

/// How many times `v` occurs in `s`.
pub open spec fn count_of(s: Seq<u8>, v: int) -> nat
    decreases s.len(),
{
    if s.len() == 0 {
        0
    } else {
        count_of(s.drop_last(), v) + if s.last() == v {
            1nat
        } else {
            0nat
        }
    }
}

/// The sum of the first `k` bins.
pub open spec fn bins_total(bins: Seq<usize>, k: int) -> int
    decreases k,
{
    if k <= 0 {
        0
    } else {
        bins_total(bins, k - 1) + bins[k - 1]
    }
}

proof fn lemma_count_bounded(s: Seq<u8>, v: int)
    ensures
        count_of(s, v) <= s.len(),
    decreases s.len(),
{
    if s.len() > 0 {
        lemma_count_bounded(s.drop_last(), v);
    }
}

/// Counts, for every brightness level `b` in `0..256`, the samples of `levels` equal to
/// `b` (the counting step of both histograms: the one read from a file's grey levels and
/// the one of a rendered edit, whose per-pixel levels the renderer computes).
pub fn count_bins(levels: &[u8]) -> (bins: Vec<usize>)
    ensures
        bins@.len() == LEVELS,
        forall|b: int| 0 <= b < LEVELS ==> bins@[b] == count_of(levels@, b),
{
    let mut bins: Vec<usize> = Vec::new();
    let mut k: usize = 0;
    while k < LEVELS
        invariant
            k <= LEVELS,
            bins@.len() == k,
            forall|b: int| 0 <= b < k ==> bins@[b] == 0,
        decreases LEVELS - k,
    {
        bins.push(0);
        k = k + 1;
    }
    let n: usize = levels.len();
    for i in 0..n
        invariant
            n == levels@.len(),
            bins@.len() == LEVELS,
            forall|b: int| 0 <= b < LEVELS ==> bins@[b] == count_of(levels@.take(i as int), b),
    {
        let v: u8 = levels[i];
        proof {
            lemma_count_bounded(levels@.take(i as int), v as int);
            assert(levels@.take(i + 1).drop_last() =~= levels@.take(i as int));
            assert(levels@.take(i + 1).last() == v);
        }
        let c: usize = bins[v as usize];
        bins.set(v as usize, c + 1);
    }
    assert(levels@.take(n as int) =~= levels@);
    bins
}

/// The brightness histogram of an image file, before normalising: the file's bytes are
/// decoded (format by the path's extension) to grey levels, which are counted level by level;
/// `None` when the file does not decode.
pub fn file_histogram_counts(path: &str, file: &[u8]) -> (r: Option<Vec<usize>>)
    ensures
        r.is_none() <==> luma8_levels(path@, file@).is_none(),
        match r {
            Some(bins) => bins@.len() == LEVELS && forall|b: int|
                0 <= b < LEVELS ==> bins@[b] == count_of(luma8_levels(path@, file@).unwrap(), b),
            None => true,
        },
{
    match decode_luma8(path, file) {
        Some(levels) => Some(count_bins(levels.as_slice())),
        None => None,
    }
}

proof fn lemma_total_after_push(s: Seq<u8>, x: u8, counts: Seq<usize>, before: Seq<usize>, k: int)
    requires
        0 <= k <= LEVELS,
        counts.len() == LEVELS,
        before.len() == LEVELS,
        forall|b: int| 0 <= b < LEVELS ==> counts[b] == count_of(s.push(x), b),
        forall|b: int| 0 <= b < LEVELS ==> before[b] == count_of(s, b),
    ensures
        bins_total(counts, k) == bins_total(before, k) + if x < k {
            1int
        } else {
            0int
        },
    decreases k,
{
    if k > 0 {
        lemma_total_after_push(s, x, counts, before, k - 1);
        assert(s.push(x).drop_last() =~= s);
    }
}

/// Every sample lands in exactly one bin: for any bins that count the samples of `levels`
/// level by level, the bins add up to the number of samples.
pub proof fn lemma_bins_total_is_sample_count(levels: Seq<u8>, bins: Seq<usize>)
    requires
        bins.len() == LEVELS,
        forall|b: int| 0 <= b < LEVELS ==> bins[b] == count_of(levels, b),
    ensures
        bins_total(bins, LEVELS as int) == levels.len(),
    decreases levels.len(),
{
    if levels.len() == 0 {
        assert forall|k: int| 0 <= k <= LEVELS implies bins_total(bins, k) == 0 by {
            lemma_total_zero(bins, k);
        }
    } else {
        let s = levels.drop_last();
        let x: u8 = levels.last();
        let before = Seq::new(LEVELS as nat, |b: int| count_of(s, b) as usize);
        assert forall|b: int| 0 <= b < LEVELS implies before[b] == count_of(s, b) by {
            assert(count_of(levels, b) >= count_of(s, b));
            assert(bins[b] == count_of(levels, b));
        }
        lemma_bins_total_is_sample_count(s, before);
        assert(s.push(x) =~= levels);
        lemma_total_after_push(s, x, bins, before, LEVELS as int);
    }
}

proof fn lemma_total_zero(bins: Seq<usize>, k: int)
    requires
        0 <= k <= bins.len(),
        forall|b: int| 0 <= b < bins.len() ==> bins[b] == 0,
    ensures
        bins_total(bins, k) == 0,
    decreases k,
{
    if k > 0 {
        lemma_total_zero(bins, k - 1);
    }
}

} // verus!
