//! The first element of a sequence that has a given property.

use vstd::prelude::*;

verus! {

/// `i` is the position of the first element of `s` that `wanted` holds of.
pub open spec fn is_first<T>(s: Seq<T>, wanted: spec_fn(T) -> bool, i: int) -> bool {
    &&& 0 <= i < s.len()
    &&& wanted(s[i])
    &&& forall|j: int| 0 <= j < i ==> !wanted(#[trigger] s[j])
}

/// The position of the first element of `s` that `wanted` holds of, if
/// there is one.
pub open spec fn first_index<T>(s: Seq<T>, wanted: spec_fn(T) -> bool) -> Option<int> {
    if exists|i: int| is_first(s, wanted, i) {
        Some(choose|i: int| is_first(s, wanted, i))
    } else {
        None
    }
}

/// A first position is the only one.
pub proof fn lemma_first_index_found<T>(s: Seq<T>, wanted: spec_fn(T) -> bool, i: int)
    requires
        is_first(s, wanted, i),
    ensures
        first_index(s, wanted) == Some(i),
{
    let k = choose|k: int| is_first(s, wanted, k);
    if k < i {
        assert(!wanted(s[k]));
    }
    if i < k {
        assert(!wanted(s[i]));
    }
}

/// Where no element has the property, there is no first position.
pub proof fn lemma_first_index_missing<T>(s: Seq<T>, wanted: spec_fn(T) -> bool)
    requires
        forall|j: int| 0 <= j < s.len() ==> !wanted(#[trigger] s[j]),
    ensures
        first_index(s, wanted) is None,
{
}

/// What a first position is.
pub proof fn lemma_first_index_is_first<T>(s: Seq<T>, wanted: spec_fn(T) -> bool)
    ensures
        first_index(s, wanted) matches Some(i) ==> is_first(s, wanted, i),
        first_index(s, wanted) is None ==> forall|j: int|
            0 <= j < s.len() ==> !wanted(#[trigger] s[j]),
{
    if first_index(s, wanted) is None {
        assert forall|j: int| 0 <= j < s.len() implies !wanted(#[trigger] s[j]) by {
            if wanted(s[j]) {
                let k = lemma_least(s, wanted, j);
                assert(is_first(s, wanted, k));
            }
        }
    }
}

/// The least position at or before `i` that has the property.
proof fn lemma_least<T>(s: Seq<T>, wanted: spec_fn(T) -> bool, i: int) -> (k: int)
    requires
        0 <= i < s.len(),
        wanted(s[i]),
    ensures
        is_first(s, wanted, k),
        k <= i,
    decreases i,
{
    if exists|j: int| 0 <= j < i && wanted(#[trigger] s[j]) {
        let j = choose|j: int| 0 <= j < i && wanted(#[trigger] s[j]);
        lemma_least(s, wanted, j)
    } else {
        i
    }
}

} // verus!
