//! How byte strings stand to one another.

use std::cmp::Ordering;
use vstd::prelude::*;

verus! {

/// Where one value stands relative to another.
#[derive(Clone, Copy, Debug, PartialEq, Eq, Structural)]
pub enum Rank {
    Below,
    Level,
    Above,
}

impl Rank {
    /// std's name for this rank.
    pub open spec fn ordering(self) -> Ordering {
        match self {
            Rank::Below => Ordering::Less,
            Rank::Level => Ordering::Equal,
            Rank::Above => Ordering::Greater,
        }
    }

    /// This rank under std's name.
    pub fn to_ordering(self) -> (ordering: Ordering)
        ensures
            ordering == self.ordering(),
    {
        match self {
            Rank::Below => Ordering::Less,
            Rank::Level => Ordering::Equal,
            Rank::Above => Ordering::Greater,
        }
    }
}

/// Whether `at` is the first place where `left` and `right` differ.
pub open spec fn first_difference(left: Seq<u8>, right: Seq<u8>, at: int) -> bool {
    &&& 0 <= at < left.len()
    &&& at < right.len()
    &&& left[at] != right[at]
    &&& forall|k: int| 0 <= k < at ==> left[k] == right[k]
}

/// The rank of `left` against `right`, byte by byte from the front: the
/// first byte that differs decides, and strings without one are level.
pub open spec fn rank_bytes(left: Seq<u8>, right: Seq<u8>) -> Rank
    recommends
        left.len() == right.len(),
{
    if exists|at: int| first_difference(left, right, at) {
        let at = choose|at: int| first_difference(left, right, at);
        if left[at] < right[at] {
            Rank::Below
        } else {
            Rank::Above
        }
    } else {
        Rank::Level
    }
}

/// Two strings differ first in at most one place.
pub proof fn lemma_first_difference_is_unique(left: Seq<u8>, right: Seq<u8>, one: int, other: int)
    requires
        first_difference(left, right, one),
        first_difference(left, right, other),
    ensures
        one == other,
{
    if one < other {
        assert(left[one] == right[one]);
    } else if other < one {
        assert(left[other] == right[other]);
    }
}

/// Among the places below `bound` where `left` and `right` differ, if there
/// is any, one is the first.
proof fn lemma_some_difference_is_first(left: Seq<u8>, right: Seq<u8>, bound: int)
    requires
        0 <= bound <= left.len(),
        bound <= right.len(),
        exists|k: int| 0 <= k < bound && left[k] != right[k],
    ensures
        exists|at: int| first_difference(left, right, at),
    decreases bound,
{
    if exists|k: int| 0 <= k < bound - 1 && left[k] != right[k] {
        lemma_some_difference_is_first(left, right, bound - 1);
    } else {
        assert(first_difference(left, right, bound - 1));
    }
}

/// Strings of one length are level exactly when they are the same string.
pub proof fn lemma_level_is_equality(left: Seq<u8>, right: Seq<u8>)
    requires
        left.len() == right.len(),
    ensures
        rank_bytes(left, right) == Rank::Level <==> left == right,
{
    if left == right {
        assert forall|at: int| !first_difference(left, right, at) by {}
    } else {
        assert(!(left =~= right));
        lemma_some_difference_is_first(left, right, left.len() as int);
    }
}

/// Swapping the two strings swaps below and above, and keeps level.
pub proof fn lemma_rank_mirrors(left: Seq<u8>, right: Seq<u8>)
    ensures
        rank_bytes(left, right) == Rank::Below <==> rank_bytes(right, left) == Rank::Above,
        rank_bytes(left, right) == Rank::Above <==> rank_bytes(right, left) == Rank::Below,
        rank_bytes(left, right) == Rank::Level <==> rank_bytes(right, left) == Rank::Level,
{
    if exists|at: int| first_difference(left, right, at) {
        let forth = choose|at: int| first_difference(left, right, at);
        assert(first_difference(right, left, forth));
        let back = choose|at: int| first_difference(right, left, at);
        lemma_first_difference_is_unique(right, left, forth, back);
    } else if exists|at: int| first_difference(right, left, at) {
        let back = choose|at: int| first_difference(right, left, at);
        assert(first_difference(left, right, back));
    }
}

/// Below is transitive.
pub proof fn lemma_below_is_transitive(low: Seq<u8>, mid: Seq<u8>, high: Seq<u8>)
    requires
        rank_bytes(low, mid) == Rank::Below,
        rank_bytes(mid, high) == Rank::Below,
    ensures
        rank_bytes(low, high) == Rank::Below,
{
    let first = choose|at: int| first_difference(low, mid, at);
    let second = choose|at: int| first_difference(mid, high, at);
    let decisive = if first <= second { first } else { second };
    assert(first_difference(low, high, decisive));
    let chosen = choose|at: int| first_difference(low, high, at);
    lemma_first_difference_is_unique(low, high, decisive, chosen);
}

/// Ranks two 32-byte arrays.
pub fn rank_arrays(left: &[u8; 32], right: &[u8; 32]) -> (rank: Rank)
    ensures
        rank == rank_bytes(left@, right@),
{
    let mut at: usize = 0;
    while at < 32
        invariant
            at <= 32,
            forall|k: int| 0 <= k < at ==> left@[k] == right@[k],
        decreases 32 - at,
    {
        if left[at] != right[at] {
            proof {
                assert(first_difference(left@, right@, at as int));
                let chosen = choose|c: int| first_difference(left@, right@, c);
                lemma_first_difference_is_unique(left@, right@, at as int, chosen);
            }
            if left[at] < right[at] {
                return Rank::Below;
            } else {
                return Rank::Above;
            }
        }
        at += 1;
    }
    proof {
        assert forall|c: int| !first_difference(left@, right@, c) by {
            if 0 <= c < 32 {
                assert(left@[c] == right@[c]);
            }
        }
    }
    Rank::Level
}

} // verus!
