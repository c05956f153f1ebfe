//! Counting successes across a batch.
//!
//! Both pipeline stages walk their batch in order and thread an accumulator
//! through it; everything they promise about slot indices and recovery
//! positions reduces to how many of the first `end` outcomes were
//! successes.  This module holds that count and the facts about it that the
//! stage contracts and laws lean on.

use vstd::prelude::*;

verus! {

/// How many of the first `end` outcomes are successes.
pub open spec fn successes_before(outcomes: Seq<bool>, end: int) -> int
    decreases end,
{
    if end <= 0 {
        0
    } else {
        successes_before(outcomes, end - 1) + if outcomes[end - 1] {
            1int
        } else {
            0int
        }
    }
}

/// Between two cut points the count is monotone and grows at most one per
/// outcome.
pub proof fn lemma_successes_range(outcomes: Seq<bool>, start: int, end: int)
    requires
        0 <= start <= end,
    ensures
        0 <= successes_before(outcomes, end) - successes_before(outcomes, start) <= end - start,
    decreases end - start,
{
    if start < end {
        lemma_successes_range(outcomes, start, end - 1);
    }
}

/// The count over a prefix is at least zero and at most the prefix length.
pub proof fn lemma_successes_bounds(outcomes: Seq<bool>, end: int)
    requires
        0 <= end,
    ensures
        0 <= successes_before(outcomes, end) <= end,
{
    lemma_successes_range(outcomes, 0, end);
}

/// When every outcome of the prefix is a success, the count is the prefix
/// length.
pub proof fn lemma_successes_all(outcomes: Seq<bool>, end: int)
    requires
        0 <= end,
        forall|i: int| 0 <= i < end ==> outcomes[i],
    ensures
        successes_before(outcomes, end) == end,
    decreases end,
{
    if end > 0 {
        lemma_successes_all(outcomes, end - 1);
    }
}

/// Every index below the final count is assigned: some success within the
/// prefix is the `k`-th one.
pub proof fn lemma_every_index_assigned(outcomes: Seq<bool>, end: int, k: int)
    requires
        0 <= end,
        0 <= k < successes_before(outcomes, end),
    ensures
        exists|i: int| 0 <= i < end && outcomes[i] && successes_before(outcomes, i) == k,
    decreases end,
{
    lemma_successes_bounds(outcomes, end);
    if end > 0 {
        if outcomes[end - 1] && successes_before(outcomes, end - 1) == k {
            assert(0 <= end - 1 < end && outcomes[end - 1] && successes_before(outcomes, end - 1)
                == k);
        } else {
            lemma_successes_bounds(outcomes, end - 1);
            lemma_every_index_assigned(outcomes, end - 1, k);
            let i = choose|i: int| 0 <= i < end - 1 && outcomes[i] && successes_before(outcomes, i)
                == k;
            assert(0 <= i < end && outcomes[i] && successes_before(outcomes, i) == k);
        }
    }
}

/// Two failures keep their relative order in the recovery set: the earlier
/// failure lands at the smaller recovery position.
pub proof fn lemma_failure_positions_ordered(outcomes: Seq<bool>, early: int, late: int)
    requires
        0 <= early < late,
        !outcomes[early],
        !outcomes[late],
    ensures
        early - successes_before(outcomes, early) < late - successes_before(outcomes, late),
{
    assert(successes_before(outcomes, early + 1) == successes_before(outcomes, early));
    lemma_successes_range(outcomes, early + 1, late);
}

} // verus!
