//! Muting silence: a channel whose samples stay quiet long enough is muted.
//!
//! Which samples count as quiet is decided by the caller (a sample below the
//! silence threshold); this module counts them and decides which to mute.

use vstd::prelude::*;

verus! {

/// Number of quiet samples a block may hold before muting starts.
pub const SILENT_THRESHOLD_COUNT: usize = 32;

/// Number of quiet samples among the first `n` entries of `quiet`.
pub open spec fn quiet_count(quiet: Seq<bool>, n: int) -> nat
    decreases n,
{
    if n <= 0 {
        0
    } else {
        quiet_count(quiet, n - 1) + if quiet[n - 1] { 1nat } else { 0nat }
    }
}

/// Sample `i` is muted when it is quiet and more than
/// `SILENT_THRESHOLD_COUNT` quiet samples of the block, itself included,
/// have come so far. The count is block-local and is never reset by a loud
/// sample.
pub open spec fn muted(quiet: Seq<bool>, i: int) -> bool {
    quiet[i] && quiet_count(quiet, i + 1) > SILENT_THRESHOLD_COUNT
}

proof fn lemma_quiet_count_bound(quiet: Seq<bool>, n: int)
    ensures
        quiet_count(quiet, n) <= if n <= 0 { 0 } else { n },
    decreases n,
{
    if n > 0 {
        lemma_quiet_count_bound(quiet, n - 1);
    }
}

proof fn lemma_quiet_count_all_quiet(quiet: Seq<bool>, n: int)
    requires
        0 <= n <= quiet.len(),
        forall|i: int| 0 <= i < quiet.len() ==> quiet[i],
    ensures
        quiet_count(quiet, n) == n,
    decreases n,
{
    if n > 0 {
        lemma_quiet_count_all_quiet(quiet, n - 1);
    }
}

/// A channel that is one run of quiet samples keeps its first
/// `SILENT_THRESHOLD_COUNT` samples and has every later one muted: a run one
/// sample longer than the threshold loses its last sample, and a run of exactly
/// the threshold's length is left untouched.
pub proof fn lemma_quiet_run_muted_after_threshold(quiet: Seq<bool>)
    requires
        forall|i: int| 0 <= i < quiet.len() ==> quiet[i],
    ensures
        forall|i: int|
            0 <= i < quiet.len() ==> (muted(quiet, i) <==> i >= SILENT_THRESHOLD_COUNT),
{
    assert forall|i: int| 0 <= i < quiet.len() implies (muted(quiet, i) <==> i
        >= SILENT_THRESHOLD_COUNT) by {
        lemma_quiet_count_all_quiet(quiet, i + 1);
    }
}

/// Which samples of a block are muted, given which are quiet.
pub fn silence_mask(quiet: &Vec<bool>) -> (r: Vec<bool>)
    ensures
        r@.len() == quiet@.len(),
        forall|i: int| 0 <= i < r@.len() ==> r@[i] == muted(quiet@, i),
{
    let mut r: Vec<bool> = Vec::new();
    let mut count: usize = 0;
    let mut i: usize = 0;
    while i < quiet.len()
        invariant
            i <= quiet@.len(),
            r@.len() == i,
            count == quiet_count(quiet@, i as int),
            forall|j: int| 0 <= j < i ==> r@[j] == muted(quiet@, j),
        decreases quiet@.len() - i,
    {
        proof {
            lemma_quiet_count_bound(quiet@, i as int);
        }
        if quiet[i] {
            count = count + 1;
        }
        r.push(quiet[i] && count > SILENT_THRESHOLD_COUNT);
        i = i + 1;
    }
    r
}

/// Mutes the quiet tail of a channel: each quiet sample that brings the
/// block's count of quiet samples above `SILENT_THRESHOLD_COUNT` becomes
/// `silence`; every other sample is kept.
pub fn remove_silence<T: Copy>(channel: &mut Vec<T>, quiet: &Vec<bool>, silence: T)
    requires
        old(channel)@.len() == quiet@.len(),
    ensures
        final(channel)@.len() == old(channel)@.len(),
        forall|i: int|
            0 <= i < final(channel)@.len() ==> final(channel)@[i] == if muted(quiet@, i) {
                silence
            } else {
                old(channel)@[i]
            },
{
    let mask = silence_mask(quiet);
    let ghost orig = channel@;
    let mut i: usize = 0;
    while i < channel.len()
        invariant
            orig == old(channel)@,
            channel@.len() == orig.len(),
            mask@.len() == quiet@.len(),
            orig.len() == quiet@.len(),
            i <= channel@.len(),
            forall|j: int| 0 <= j < mask@.len() ==> mask@[j] == muted(quiet@, j),
            forall|j: int|
                0 <= j < i ==> channel@[j] == if muted(quiet@, j) {
                    silence
                } else {
                    orig[j]
                },
            forall|j: int| i <= j < channel@.len() ==> channel@[j] == orig[j],
        decreases channel@.len() - i,
    {
        assert(mask@[i as int] == muted(quiet@, i as int));
        if mask[i] {
            channel.set(i, silence);
        }
        i = i + 1;
    }
}

} // verus!
