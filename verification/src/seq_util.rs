//! Small facts about `Seq::filter` that the storage model's proofs lean on.

use vstd::prelude::*;

verus! {

/// Filtering a sequence extended by one element keeps the element exactly
/// when the predicate holds of it.
pub proof fn lemma_filter_push<A>(s: Seq<A>, p: spec_fn(A) -> bool, x: A)
    ensures
        s.push(x).filter(p) == if p(x) {
            s.filter(p).push(x)
        } else {
            s.filter(p)
        },
{
    reveal(Seq::filter);
    let t = s.push(x);
    assert(t.drop_last() =~= s);
    assert(t.last() == x);
}

/// A sequence none of whose elements satisfy the predicate filters to the
/// empty sequence.
pub proof fn lemma_filter_none<A>(s: Seq<A>, p: spec_fn(A) -> bool)
    requires
        forall|j: int| 0 <= j < s.len() ==> !p(#[trigger] s[j]),
    ensures
        s.filter(p) == Seq::<A>::empty(),
    decreases s.len(),
{
    reveal(Seq::filter);
    if s.len() != 0 {
        lemma_filter_none(s.drop_last(), p);
        assert(!p(s.last()));
    }
}

/// The empty sequence filters to itself.
pub proof fn lemma_filter_empty<A>(p: spec_fn(A) -> bool)
    ensures
        Seq::<A>::empty().filter(p) == Seq::<A>::empty(),
{
    reveal(Seq::filter);
}

/// A sequence all of whose elements satisfy the predicate filters to itself.
pub proof fn lemma_filter_all<A>(s: Seq<A>, p: spec_fn(A) -> bool)
    requires
        forall|j: int| 0 <= j < s.len() ==> p(#[trigger] s[j]),
    ensures
        s.filter(p) == s,
    decreases s.len(),
{
    reveal(Seq::filter);
    if s.len() != 0 {
        lemma_filter_all(s.drop_last(), p);
        assert(p(s.last()));
        assert(s.drop_last().push(s.last()) =~= s);
    }
}

/// Two filters in a row are the filter by the conjunction.
pub proof fn lemma_filter_filter<A>(s: Seq<A>, p: spec_fn(A) -> bool, q: spec_fn(A) -> bool)
    ensures
        s.filter(p).filter(q) == s.filter(|x: A| p(x) && q(x)),
    decreases s.len(),
{
    reveal(Seq::filter);
    let c = |x: A| p(x) && q(x);
    if s.len() == 0 {
        assert(s.filter(p) =~= Seq::<A>::empty());
        assert(s.filter(p).filter(q) =~= Seq::<A>::empty());
        assert(s.filter(c) =~= Seq::<A>::empty());
    } else {
        let s0 = s.drop_last();
        let x = s.last();
        lemma_filter_filter(s0, p, q);
        assert(s =~= s0.push(x));
        lemma_filter_push(s0, p, x);
        lemma_filter_push(s0, c, x);
        if p(x) {
            lemma_filter_push(s0.filter(p), q, x);
        }
    }
}

/// Filters by predicates that agree on every element of the sequence are
/// equal.
pub proof fn lemma_filter_equiv<A>(s: Seq<A>, p: spec_fn(A) -> bool, q: spec_fn(A) -> bool)
    requires
        forall|i: int| 0 <= i < s.len() ==> (p(#[trigger] s[i]) <==> q(s[i])),
    ensures
        s.filter(p) == s.filter(q),
    decreases s.len(),
{
    reveal(Seq::filter);
    if s.len() == 0 {
        assert(s.filter(p) =~= s.filter(q));
    } else {
        let s0 = s.drop_last();
        let x = s.last();
        assert(forall|i: int| 0 <= i < s0.len() ==> s0[i] == s[i]);
        lemma_filter_equiv(s0, p, q);
        assert(s =~= s0.push(x));
        lemma_filter_push(s0, p, x);
        lemma_filter_push(s0, q, x);
        assert(p(x) <==> q(x)) by {
            assert(p(s[s.len() - 1]) <==> q(s[s.len() - 1]));
        }
    }
}

/// Every element of a filtered sequence stands somewhere in the original.
pub proof fn lemma_filter_elem<A>(s: Seq<A>, p: spec_fn(A) -> bool, k: int)
    requires
        0 <= k < s.filter(p).len(),
    ensures
        exists|i: int| 0 <= i < s.len() && #[trigger] s[i] == s.filter(p)[k],
    decreases s.len(),
{
    reveal(Seq::filter);
    if s.len() != 0 {
        let s0 = s.drop_last();
        let x = s.last();
        if p(x) && k == s0.filter(p).len() {
            assert(s.filter(p)[k] == x);
            assert(s[s.len() - 1] == x);
        } else {
            lemma_filter_elem(s0, p, k);
            let i = choose|i: int| 0 <= i < s0.len() && #[trigger] s0[i] == s0.filter(p)[k];
            assert(s[i] == s0[i]);
            assert(s[i] == s.filter(p)[k]);
        }
    }
}

/// A sequence with exactly one element satisfying the predicate filters to
/// that element alone.
pub proof fn lemma_filter_single<A>(s: Seq<A>, p: spec_fn(A) -> bool, i: int)
    requires
        0 <= i < s.len(),
        p(s[i]),
        forall|j: int| 0 <= j < s.len() && j != i ==> !p(#[trigger] s[j]),
    ensures
        s.filter(p) == seq![s[i]],
    decreases s.len(),
{
    reveal(Seq::filter);
    let s0 = s.drop_last();
    let x = s.last();
    assert(s =~= s0.push(x));
    lemma_filter_push(s0, p, x);
    if i == s.len() - 1 {
        lemma_filter_none(s0, p);
        assert(s.filter(p) =~= seq![s[i]]);
    } else {
        lemma_filter_single(s0, p, i);
        assert(!p(x));
    }
}

} // verus!
