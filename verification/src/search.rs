//! First-match search over sequences, the discipline by which every
//! name-keyed table of this crate is read, and facts about the selection by
//! which every table of a descriptor is made from the fields.

use vstd::prelude::*;

verus! {

/// `i` is the position of the first element of `s` that satisfies `p`.
pub open spec fn is_first<A>(s: Seq<A>, p: spec_fn(A) -> bool, i: int) -> bool {
    &&& 0 <= i < s.len()
    &&& p(s[i])
    &&& forall|j: int| 0 <= j < i ==> !p(#[trigger] s[j])
}

/// The position of the first element of `s` that satisfies `p`, if any does.
pub open spec fn first_match<A>(s: Seq<A>, p: spec_fn(A) -> bool) -> Option<int> {
    if exists|i: int| is_first(s, p, i) {
        Some(choose|i: int| is_first(s, p, i))
    } else {
        None
    }
}

/// A position that is a first match is the first match.
pub proof fn lemma_first_match_found<A>(s: Seq<A>, p: spec_fn(A) -> bool, i: int)
    requires
        is_first(s, p, i),
    ensures
        first_match(s, p) == Some(i),
{
    let k = choose|k: int| is_first(s, p, k);
    assert(is_first(s, p, k));
    if k < i {
        assert(!p(s[k]));
    } else if i < k {
        assert(!p(s[i]));
    }
}

/// Where no element satisfies `p`, there is no first match.
pub proof fn lemma_first_match_absent<A>(s: Seq<A>, p: spec_fn(A) -> bool)
    requires
        forall|j: int| 0 <= j < s.len() ==> !p(#[trigger] s[j]),
    ensures
        first_match(s, p) is None,
{
    if exists|i: int| is_first(s, p, i) {
        let k = choose|k: int| is_first(s, p, k);
        assert(p(s[k]));
    }
}

/// What a first match says of the sequence, in either outcome.
pub proof fn lemma_first_match_is_first<A>(s: Seq<A>, p: spec_fn(A) -> bool)
    ensures
        match first_match(s, p) {
            Some(i) => is_first(s, p, i),
            None => forall|j: int| 0 <= j < s.len() ==> !p(#[trigger] s[j]),
        },
{
    if exists|i: int| is_first(s, p, i) {
    } else {
        assert forall|j: int| 0 <= j < s.len() implies !p(#[trigger] s[j]) by {
            if p(s[j]) {
                lemma_some_match_has_first(s, p, j);
            }
        }
    }
}

/// An element that satisfies `p` is preceded, or is itself, a first match.
pub proof fn lemma_some_match_has_first<A>(s: Seq<A>, p: spec_fn(A) -> bool, j: int)
    requires
        0 <= j < s.len(),
        p(s[j]),
    ensures
        exists|i: int| is_first(s, p, i),
    decreases j,
{
    if forall|k: int| 0 <= k < j ==> !p(#[trigger] s[k]) {
        assert(is_first(s, p, j));
    } else {
        let k = choose|k: int| 0 <= k < j && p(#[trigger] s[k]);
        lemma_some_match_has_first(s, p, k);
    }
}

/// What is selected from an element of a sequence is in the selection.
pub proof fn lemma_filter_map_has<A, B>(s: Seq<A>, f: spec_fn(A) -> Option<B>, i: int)
    requires
        0 <= i < s.len(),
        f(s[i]) is Some,
    ensures
        s.filter_map(f).contains(f(s[i])->0),
    decreases s.len(),
{
    let head = s.drop_last();
    let value = f(s[i])->0;
    if i == s.len() - 1 {
        let selected = head.filter_map(f) + seq![value];
        assert(selected[selected.len() - 1] == value);
    } else {
        lemma_filter_map_has(head, f, i);
        let at = choose|k: int| 0 <= k < head.filter_map(f).len() && head.filter_map(f)[k] == value;
        assert(s.filter_map(f)[at] == value);
    }
}

/// Where nothing is selected from any element, the selection is empty.
pub proof fn lemma_filter_map_nothing<A, B>(s: Seq<A>, f: spec_fn(A) -> Option<B>)
    requires
        forall|i: int| 0 <= i < s.len() ==> f(#[trigger] s[i]) is None,
    ensures
        s.filter_map(f).len() == 0,
    decreases s.len(),
{
    if s.len() > 0 {
        assert(f(s[s.len() - 1]) is None);
        let head = s.drop_last();
        assert forall|i: int| 0 <= i < head.len() implies f(#[trigger] head[i]) is None by {
            assert(head[i] == s[i]);
        }
        lemma_filter_map_nothing(head, f);
    }
}

/// The elements from which something is selected.
pub open spec fn selects<A, B>(f: spec_fn(A) -> Option<B>) -> spec_fn(A) -> bool {
    |a: A| f(a) is Some
}

/// The selection is as long as there are elements from which something is
/// selected.
pub proof fn lemma_filter_map_len<A, B>(s: Seq<A>, f: spec_fn(A) -> Option<B>)
    ensures
        s.filter_map(f).len() == s.filter(selects(f)).len(),
    decreases s.len(),
{
    reveal(Seq::filter);
    if s.len() > 0 {
        lemma_filter_map_len(s.drop_last(), f);
    }
}

} // verus!
