//! The first position in a sequence at which a predicate holds.

use vstd::prelude::*;

verus! {

/// The least index of `s` at which `pred` holds, or `s.len()` where it holds
/// at no index.
pub open spec fn first_index<A>(s: Seq<A>, pred: spec_fn(A) -> bool) -> int
    decreases s.len(),
{
    if s.len() == 0 {
        0
    } else if pred(s[0]) {
        0
    } else {
        1 + first_index(s.drop_first(), pred)
    }
}

/// `first_index` lies within `0..=s.len()`, `pred` holds at it if it is an
/// index of `s`, and `pred` holds at no index before it.
pub proof fn lemma_first_index_is_least<A>(s: Seq<A>, pred: spec_fn(A) -> bool)
    ensures
        0 <= first_index(s, pred) <= s.len(),
        first_index(s, pred) < s.len() ==> pred(s[first_index(s, pred)]),
        forall|j: int| 0 <= j < first_index(s, pred) ==> !pred(#[trigger] s[j]),
    decreases s.len(),
{
    if s.len() > 0 && !pred(s[0]) {
        let rest = s.drop_first();
        lemma_first_index_is_least(rest, pred);
        assert forall|j: int| 0 <= j < first_index(s, pred) implies !pred(#[trigger] s[j]) by {
            if j > 0 {
                assert(s[j] == rest[j - 1]);
            }
        }
    }
}

/// An index `i` before which `pred` never holds, and which is either the
/// length of `s` or an index at which `pred` holds, is `first_index`.
pub proof fn lemma_first_index_unique<A>(s: Seq<A>, pred: spec_fn(A) -> bool, i: int)
    requires
        0 <= i <= s.len(),
        forall|j: int| 0 <= j < i ==> !pred(#[trigger] s[j]),
        i < s.len() ==> pred(s[i]),
    ensures
        first_index(s, pred) == i,
{
    lemma_first_index_is_least(s, pred);
    let k = first_index(s, pred);
    if k < i {
        assert(!pred(s[k]));
    } else if i < k {
        assert(!pred(s[i]));
    }
}

} // verus!
