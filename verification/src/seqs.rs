//! First-match search over sequences, the shape of `iter().find(..)`.

use vstd::prelude::*;

verus! {

/// `i` is the first position of `s` that satisfies `p`.
pub open spec fn is_first_index<A>(s: Seq<A>, p: spec_fn(A) -> bool, i: int) -> bool {
    &&& 0 <= i < s.len()
    &&& p(s[i])
    &&& forall|j: int| 0 <= j < i ==> !p(#[trigger] s[j])
}

/// Some element of `s` satisfies `p`.
pub open spec fn any_index<A>(s: Seq<A>, p: spec_fn(A) -> bool) -> bool {
    exists|i: int| 0 <= i < s.len() && p(#[trigger] s[i])
}

/// The first position of `s` that satisfies `p` (meaningful when one does).
pub open spec fn first_index<A>(s: Seq<A>, p: spec_fn(A) -> bool) -> int {
    choose|i: int| is_first_index(s, p, i)
}

/// The first element of `s` that satisfies `p`, if any.
pub open spec fn find_first<A>(s: Seq<A>, p: spec_fn(A) -> bool) -> Option<A> {
    if any_index(s, p) {
        Some(s[first_index(s, p)])
    } else {
        None
    }
}

pub proof fn lemma_first_index_is<A>(s: Seq<A>, p: spec_fn(A) -> bool, i: int)
    requires
        is_first_index(s, p, i),
    ensures
        any_index(s, p),
        first_index(s, p) == i,
        find_first(s, p) == Some(s[i]),
{
    assert(p(s[i]));
    let k = first_index(s, p);
    assert(is_first_index(s, p, k));
    if k < i {
        assert(!p(s[k]));
    }
    if i < k {
        assert(!p(s[i]));
    }
}

pub proof fn lemma_no_index<A>(s: Seq<A>, p: spec_fn(A) -> bool)
    requires
        forall|j: int| 0 <= j < s.len() ==> !p(#[trigger] s[j]),
    ensures
        !any_index(s, p),
        find_first(s, p) is None,
{
}

/// Whenever some element satisfies `p`, the first such element exists.
pub proof fn lemma_first_exists<A>(s: Seq<A>, p: spec_fn(A) -> bool)
    requires
        any_index(s, p),
    ensures
        is_first_index(s, p, first_index(s, p)),
    decreases s.len(),
{
    let k = choose|i: int| 0 <= i < s.len() && p(#[trigger] s[i]);
    let prefix = s.subrange(0, k);
    if exists|j: int| 0 <= j < k && p(#[trigger] s[j]) {
        let j = choose|j: int| 0 <= j < k && p(#[trigger] s[j]);
        assert(prefix[j] == s[j]);
        lemma_first_exists(prefix, p);
        let m = first_index(prefix, p);
        assert forall|i: int| 0 <= i < m implies !p(#[trigger] s[i]) by {
            assert(prefix[i] == s[i]);
        }
        assert(prefix[m] == s[m]);
        assert(is_first_index(s, p, m));
    } else {
        assert(is_first_index(s, p, k));
    }
}

} // verus!
