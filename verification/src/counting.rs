//! Counting and locating the items of a sequence that satisfy a predicate.
use vstd::prelude::*;

verus! {

/// How many items of `s` satisfy `p`.
pub open spec fn count_where<A>(s: Seq<A>, p: spec_fn(A) -> bool) -> nat
    decreases s.len(),
{
    if s.len() == 0 {
        0
    } else {
        count_where(s.drop_last(), p) + (if p(s.last()) {
            1nat
        } else {
            0nat
        })
    }
}

/// The index of the last item of `s` that satisfies `p`.
pub open spec fn last_where<A>(s: Seq<A>, p: spec_fn(A) -> bool) -> Option<int>
    decreases s.len(),
{
    if s.len() == 0 {
        None
    } else if p(s.last()) {
        Some(s.len() - 1)
    } else {
        last_where(s.drop_last(), p)
    }
}

/// The index of the first item of `s` that satisfies `p`.
pub open spec fn first_where<A>(s: Seq<A>, p: spec_fn(A) -> bool) -> Option<int>
    decreases s.len(),
{
    if s.len() == 0 {
        None
    } else {
        match first_where(s.drop_last(), p) {
            Some(i) => Some(i),
            None => if p(s.last()) {
                Some(s.len() - 1)
            } else {
                None
            },
        }
    }
}

/// One more item of a prefix: the count grows by one exactly when it matches.
pub proof fn lemma_count_prefix_step<A>(s: Seq<A>, p: spec_fn(A) -> bool, i: int)
    requires
        0 <= i < s.len(),
    ensures
        count_where(s.subrange(0, i + 1), p) == count_where(s.subrange(0, i), p) + (if p(s[i]) {
            1nat
        } else {
            0nat
        }),
        last_where(s.subrange(0, i + 1), p) == (if p(s[i]) {
            Some(i)
        } else {
            last_where(s.subrange(0, i), p)
        }),
        first_where(s.subrange(0, i + 1), p) == (match first_where(s.subrange(0, i), p) {
            Some(k) => Some(k),
            None => if p(s[i]) {
                Some(i)
            } else {
                None
            },
        }),
{
    assert(s.subrange(0, i + 1).drop_last() =~= s.subrange(0, i));
}

/// The whole sequence is its own prefix.
pub proof fn lemma_full_prefix<A>(s: Seq<A>)
    ensures
        s.subrange(0, s.len() as int) == s,
{
    assert(s.subrange(0, s.len() as int) =~= s);
}

/// What the index of the last match is: a match, with no match after it.
pub proof fn lemma_last_where<A>(s: Seq<A>, p: spec_fn(A) -> bool)
    ensures
        match last_where(s, p) {
            Some(i) => 0 <= i < s.len() && p(s[i]) && forall|j: int|
                i < j < s.len() ==> !p(#[trigger] s[j]),
            None => forall|j: int| 0 <= j < s.len() ==> !p(#[trigger] s[j]),
        },
    decreases s.len(),
{
    if s.len() > 0 {
        lemma_last_where(s.drop_last(), p);
        assert forall|j: int| 0 <= j < s.len() - 1 implies s[j] == s.drop_last()[j] by {}
    }
}

/// What the index of the first match is: a match, with no match before it.
pub proof fn lemma_first_where<A>(s: Seq<A>, p: spec_fn(A) -> bool)
    ensures
        match first_where(s, p) {
            Some(i) => 0 <= i < s.len() && p(s[i]) && forall|j: int|
                0 <= j < i ==> !p(#[trigger] s[j]),
            None => forall|j: int| 0 <= j < s.len() ==> !p(#[trigger] s[j]),
        },
    decreases s.len(),
{
    if s.len() > 0 {
        lemma_first_where(s.drop_last(), p);
        assert forall|j: int| 0 <= j < s.len() - 1 implies s[j] == s.drop_last()[j] by {}
    }
}

/// A match with no match before it is the first match.
pub proof fn lemma_first_where_is<A>(s: Seq<A>, p: spec_fn(A) -> bool, k: int)
    requires
        0 <= k < s.len(),
        p(s[k]),
        forall|j: int| 0 <= j < k ==> !p(#[trigger] s[j]),
    ensures
        first_where(s, p) == Some(k),
{
    lemma_first_where(s, p);
}

/// Exactly one match: the last match is the only one.
pub proof fn lemma_single_match<A>(s: Seq<A>, p: spec_fn(A) -> bool)
    requires
        count_where(s, p) == 1,
    ensures
        last_where(s, p) matches Some(i) && forall|j: int|
            0 <= j < s.len() && p(#[trigger] s[j]) ==> j == i,
    decreases s.len(),
{
    lemma_last_where(s, p);
    let t = s.drop_last();
    if p(s.last()) {
        lemma_count_zero(t, p);
        assert forall|j: int| 0 <= j < s.len() && p(#[trigger] s[j]) implies j == s.len() - 1 by {
            if j < s.len() - 1 {
                assert(t[j] == s[j]);
            }
        }
    } else {
        lemma_single_match(t, p);
        assert forall|j: int| 0 <= j < s.len() && p(#[trigger] s[j]) implies j
            == last_where(s, p)->Some_0 by {
            assert(t[j] == s[j]);
        }
    }
}

/// No match at all when the count is zero.
pub proof fn lemma_count_zero<A>(s: Seq<A>, p: spec_fn(A) -> bool)
    ensures
        count_where(s, p) == 0 <==> forall|j: int| 0 <= j < s.len() ==> !p(#[trigger] s[j]),
    decreases s.len(),
{
    if s.len() > 0 {
        lemma_count_zero(s.drop_last(), p);
        assert forall|j: int| 0 <= j < s.len() - 1 implies s[j] == s.drop_last()[j] by {}
    }
}

/// Counting over a concatenation adds the counts.
pub proof fn lemma_count_concat<A>(a: Seq<A>, b: Seq<A>, p: spec_fn(A) -> bool)
    ensures
        count_where(a + b, p) == count_where(a, p) + count_where(b, p),
    decreases b.len(),
{
    if b.len() == 0 {
        assert(a + b =~= a);
    } else {
        lemma_count_concat(a, b.drop_last(), p);
        assert((a + b).drop_last() =~= a + b.drop_last());
    }
}

/// Removing an item takes its match, if it is one, out of the count.
pub proof fn lemma_count_remove<A>(t: Seq<A>, j: int, p: spec_fn(A) -> bool)
    requires
        0 <= j < t.len(),
    ensures
        count_where(t, p) == count_where(t.remove(j), p) + (if p(t[j]) {
            1nat
        } else {
            0nat
        }),
{
    let a = t.subrange(0, j);
    let b = t.subrange(j + 1, t.len() as int);
    let one = seq![t[j]];
    assert(t =~= a + one + b);
    assert(t.remove(j) =~= a + b);
    lemma_count_concat(a + one, b, p);
    lemma_count_concat(a, one, p);
    lemma_count_concat(a, b, p);
    assert(one.drop_last() =~= Seq::<A>::empty());
    assert(count_where(Seq::<A>::empty(), p) == 0);
    assert(one.last() == t[j]);
    assert(count_where(one, p) == (if p(t[j]) {
        1nat
    } else {
        0nat
    }));
}

/// The count depends only on which items occur how often, not on their order.
pub proof fn lemma_count_by_multiset<A>(s: Seq<A>, t: Seq<A>, p: spec_fn(A) -> bool)
    requires
        s.to_multiset() == t.to_multiset(),
    ensures
        count_where(s, p) == count_where(t, p),
    decreases s.len(),
{
    broadcast use vstd::seq_lib::group_to_multiset_ensures;
    broadcast use vstd::multiset::group_multiset_axioms;

    s.to_multiset_ensures();
    t.to_multiset_ensures();
    if s.len() == 0 {
        assert(t.len() == 0);
    } else {
        let x = s.last();
        let s1 = s.drop_last();
        assert(s1.push(x) =~= s);
        assert(s.contains(x)) by {
            assert(s[s.len() - 1] == x);
        }
        assert(t.to_multiset().count(x) > 0);
        assert(t.contains(x));
        let j = choose|j: int| 0 <= j < t.len() && t[j] == x;
        let t1 = t.remove(j);
        assert(s1.to_multiset() =~= s.to_multiset().remove(x));
        assert(t1.to_multiset() =~= t.to_multiset().remove(x));
        lemma_count_by_multiset(s1, t1, p);
        lemma_count_remove(t, j, p);
    }
}

} // verus!
