//! The first position at which something holds, the notion behind every
//! lookup by name or by key in this crate.

use vstd::prelude::*;

verus! {

/// `i` is the least index at which `hits` is true.
pub open spec fn is_first(hits: Seq<bool>, i: int) -> bool {
    &&& 0 <= i < hits.len()
    &&& hits[i]
    &&& forall|j: int| 0 <= j < i ==> !hits[j]
}

/// The least index at which `hits` is true, if there is one.
pub open spec fn first_index(hits: Seq<bool>) -> Option<int> {
    if exists|i: int| is_first(hits, i) {
        Some(choose|i: int| is_first(hits, i))
    } else {
        None
    }
}

/// A hit with none before it is the first index.
pub proof fn lemma_first_index_found(hits: Seq<bool>, i: int)
    requires
        is_first(hits, i),
    ensures
        first_index(hits) == Some(i),
{
    let k = choose|k: int| is_first(hits, k);
    assert(is_first(hits, k));
    if k < i {
        assert(!hits[k]);
    }
    if i < k {
        assert(!hits[i]);
    }
}

/// Without any hit there is no first index.
pub proof fn lemma_first_index_none(hits: Seq<bool>)
    requires
        forall|j: int| 0 <= j < hits.len() ==> !hits[j],
    ensures
        first_index(hits) is None,
{
    if exists|i: int| is_first(hits, i) {
        let k = choose|k: int| is_first(hits, k);
        assert(hits[k]);
    }
}

/// What `first_index` returns is in range, a hit, and preceded by none.
pub proof fn lemma_first_index_is_first(hits: Seq<bool>)
    ensures
        match first_index(hits) {
            Some(i) => is_first(hits, i),
            None => forall|j: int| 0 <= j < hits.len() ==> !hits[j],
        },
{
    if exists|i: int| is_first(hits, i) {
    } else {
        assert forall|j: int| 0 <= j < hits.len() implies !hits[j] by {
            if hits[j] {
                lemma_some_hit_has_first(hits, j);
            }
        }
    }
}

/// Below any hit lies a first one.
proof fn lemma_some_hit_has_first(hits: Seq<bool>, j: int)
    requires
        0 <= j < hits.len(),
        hits[j],
    ensures
        exists|i: int| is_first(hits, i),
    decreases j,
{
    if exists|k: int| 0 <= k < j && hits[k] {
        let k = choose|k: int| 0 <= k < j && hits[k];
        lemma_some_hit_has_first(hits, k);
    } else {
        assert(is_first(hits, j));
    }
}

} // verus!
