use vstd::prelude::*;

verus! {

/// Number of active chains among the first `n` entries of the mask.
///
/// The active-chain mask is fixed when the solver state is built; every
/// goal-setting call distributes its flat buffers over exactly the chains
/// whose mask entry is true, in order of increasing chain index.  The slot
/// number of an active chain `i` is `count_active(mask, i)`.
pub open spec fn count_active(active: Seq<bool>, n: int) -> int
    decreases n,
{
    if n <= 0 {
        0
    } else {
        count_active(active, n - 1) + if active[n - 1] {
            1int
        } else {
            0int
        }
    }
}

/// The count of a prefix is at least zero and at most the prefix length.
pub proof fn lemma_count_active_bounds(active: Seq<bool>, n: int)
    ensures
        0 <= count_active(active, n),
        n >= 0 ==> count_active(active, n) <= n,
    decreases n,
{
    if n > 0 {
        lemma_count_active_bounds(active, n - 1);
    }
}

/// Counting over a longer prefix never yields fewer active chains.
pub proof fn lemma_count_active_mono(active: Seq<bool>, m: int, n: int)
    requires
        m <= n,
    ensures
        count_active(active, m) <= count_active(active, n),
    decreases n - m,
{
    if m < n {
        lemma_count_active_mono(active, m, n - 1);
    }
}

/// An active chain's slot number lies strictly below the count of any
/// prefix that contains the chain.
pub proof fn lemma_count_active_strict(active: Seq<bool>, i: int, n: int)
    requires
        0 <= i < n,
        active[i],
    ensures
        count_active(active, i) < count_active(active, n),
{
    lemma_count_active_mono(active, i + 1, n);
}

} // verus!
