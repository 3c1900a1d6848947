//! Sequences: the few operations that the models are stated with.

use vstd::prelude::*;

verus! {

/// The values that `f` gives for the elements of `s`, in order, without the
/// elements for which it gives none.
pub open spec fn filter_map<A, B>(s: Seq<A>, f: spec_fn(A) -> Option<B>) -> Seq<B>
    decreases s.len(),
{
    if s.len() == 0 {
        Seq::empty()
    } else {
        let rest = filter_map(s.drop_last(), f);
        match f(s.last()) {
            Some(b) => rest.push(b),
            None => rest,
        }
    }
}

/// One more element of `s` adds at most one value.
pub proof fn lemma_filter_map_take<A, B>(s: Seq<A>, i: int, f: spec_fn(A) -> Option<B>)
    requires
        0 <= i < s.len(),
    ensures
        filter_map(s.take(i + 1), f) == match f(s[i]) {
            Some(b) => filter_map(s.take(i), f).push(b),
            None => filter_map(s.take(i), f),
        },
{
    assert(s.take(i + 1).drop_last() =~= s.take(i));
}

/// Nothing comes of the empty prefix, and the longest prefix is `s`.
pub proof fn lemma_filter_map_ends<A, B>(s: Seq<A>, f: spec_fn(A) -> Option<B>)
    ensures
        filter_map(s.take(0), f) == Seq::<B>::empty(),
        filter_map(s.take(s.len() as int), f) == filter_map(s, f),
{
    assert(s.take(s.len() as int) =~= s);
}

/// The number of elements of `s` for which `p` holds.
pub open spec fn count<A>(s: Seq<A>, p: spec_fn(A) -> bool) -> nat
    decreases s.len(),
{
    if s.len() == 0 {
        0
    } else {
        count(s.drop_last(), p) + if p(s.last()) {
            1nat
        } else {
            0nat
        }
    }
}

/// One more element of `s` adds at most one to the count.
pub proof fn lemma_count_take<A>(s: Seq<A>, i: int, p: spec_fn(A) -> bool)
    requires
        0 <= i < s.len(),
    ensures
        count(s.take(i + 1), p) == count(s.take(i), p) + if p(s[i]) {
            1nat
        } else {
            0nat
        },
        count(s.take(i), p) <= i,
    decreases i,
{
    assert(s.take(i + 1).drop_last() =~= s.take(i));
    if i > 0 {
        lemma_count_take(s, i - 1, p);
    }
}

/// Nothing is counted in the empty prefix, and the longest prefix is `s`.
pub proof fn lemma_count_ends<A>(s: Seq<A>, p: spec_fn(A) -> bool)
    ensures
        count(s.take(0), p) == 0,
        count(s.take(s.len() as int), p) == count(s, p),
{
    assert(s.take(s.len() as int) =~= s);
}

/// The position of the first element of `s` for which `p` holds.
pub open spec fn first_index<A>(s: Seq<A>, p: spec_fn(A) -> bool) -> Option<int>
    decreases s.len(),
{
    if s.len() == 0 {
        None
    } else {
        match first_index(s.drop_last(), p) {
            Some(i) => Some(i),
            None => if p(s.last()) {
                Some(s.len() - 1)
            } else {
                None
            },
        }
    }
}

/// What `first_index` finds is in range, holds, and nothing before it does;
/// when it finds nothing, nothing holds.
pub proof fn lemma_first_index<A>(s: Seq<A>, p: spec_fn(A) -> bool)
    ensures
        match first_index(s, p) {
            Some(i) => 0 <= i < s.len() && p(s[i]) && forall|j: int| 0 <= j < i ==> !p(s[j]),
            None => forall|j: int| 0 <= j < s.len() ==> !p(s[j]),
        },
    decreases s.len(),
{
    if s.len() > 0 {
        lemma_first_index(s.drop_last(), p);
        assert(forall|j: int| 0 <= j < s.len() - 1 ==> s.drop_last()[j] == s[j]);
    }
}

/// The first position at which `p` holds is the one that `first_index` gives.
pub proof fn lemma_first_index_is<A>(s: Seq<A>, p: spec_fn(A) -> bool, i: int)
    requires
        0 <= i < s.len(),
        p(s[i]),
        forall|j: int| 0 <= j < i ==> !p(s[j]),
    ensures
        first_index(s, p) == Some(i),
{
    lemma_first_index(s, p);
}

/// Where `p` holds nowhere, `first_index` finds nothing.
pub proof fn lemma_first_index_none<A>(s: Seq<A>, p: spec_fn(A) -> bool)
    requires
        forall|j: int| 0 <= j < s.len() ==> !p(s[j]),
    ensures
        first_index(s, p) is None,
{
    lemma_first_index(s, p);
}

/// The values that `f` gives for the elements of `s`, in order, or the
/// first error that it gives.
pub open spec fn try_map<A, B, E>(s: Seq<A>, f: spec_fn(A) -> Result<B, E>) -> Result<Seq<B>, E>
    decreases s.len(),
{
    if s.len() == 0 {
        Ok(Seq::empty())
    } else {
        match try_map(s.drop_last(), f) {
            Err(error) => Err(error),
            Ok(done) => match f(s.last()) {
                Ok(b) => Ok(done.push(b)),
                Err(error) => Err(error),
            },
        }
    }
}

/// One more element of `s` adds one value, or fails.
pub proof fn lemma_try_map_take<A, B, E>(s: Seq<A>, i: int, f: spec_fn(A) -> Result<B, E>)
    requires
        0 <= i < s.len(),
    ensures
        try_map(s.take(i + 1), f) == match try_map(s.take(i), f) {
            Err(error) => Err::<Seq<B>, E>(error),
            Ok(done) => match f(s[i]) {
                Ok(b) => Ok(done.push(b)),
                Err(error) => Err(error),
            },
        },
{
    assert(s.take(i + 1).drop_last() =~= s.take(i));
}

/// An error for a prefix of `s` is the outcome for `s`.
pub proof fn lemma_try_map_error<A, B, E>(s: Seq<A>, i: int, f: spec_fn(A) -> Result<B, E>)
    requires
        0 <= i <= s.len(),
        try_map(s.take(i), f) is Err,
    ensures
        try_map(s, f) == try_map(s.take(i), f),
    decreases s.len() - i,
{
    if i < s.len() {
        lemma_try_map_take(s, i, f);
        lemma_try_map_error(s, i + 1, f);
    } else {
        assert(s.take(i) =~= s);
    }
}

/// The empty prefix gives the empty list, and the longest prefix is `s`.
pub proof fn lemma_try_map_ends<A, B, E>(s: Seq<A>, f: spec_fn(A) -> Result<B, E>)
    ensures
        try_map(s.take(0), f) == Ok::<Seq<B>, E>(Seq::empty()),
        try_map(s.take(s.len() as int), f) == try_map(s, f),
{
    assert(s.take(s.len() as int) =~= s);
}

/// Each value of `filter_map` comes from an element of `s`.
pub proof fn lemma_filter_map_source<A, B>(s: Seq<A>, f: spec_fn(A) -> Option<B>, i: int)
    requires
        0 <= i < filter_map(s, f).len(),
    ensures
        exists|j: int| 0 <= j < s.len() && #[trigger] f(s[j]) == Some(filter_map(s, f)[i]),
    decreases s.len(),
{
    if s.len() > 0 {
        let rest = filter_map(s.drop_last(), f);
        if i < rest.len() {
            lemma_filter_map_source(s.drop_last(), f, i);
            let j = choose|j: int|
                0 <= j < s.drop_last().len() && #[trigger] f(s.drop_last()[j]) == Some(rest[i]);
            assert(s.drop_last()[j] == s[j]);
            assert(f(s[j]) == Some(filter_map(s, f)[i]));
        } else {
            assert(f(s[s.len() - 1]) == Some(filter_map(s, f)[i]));
        }
    }
}

/// Two predicates that agree on `s` have the same first position.
pub proof fn lemma_first_index_same<A>(s: Seq<A>, p: spec_fn(A) -> bool, q: spec_fn(A) -> bool)
    requires
        forall|j: int| 0 <= j < s.len() ==> p(#[trigger] s[j]) == q(s[j]),
    ensures
        first_index(s, p) == first_index(s, q),
    decreases s.len(),
{
    if s.len() > 0 {
        assert(forall|j: int| 0 <= j < s.len() - 1 ==> s.drop_last()[j] == s[j]);
        lemma_first_index_same(s.drop_last(), p, q);
    }
}

/// Where `p` holds at one position only, it holds once.
pub proof fn lemma_count_one<A>(s: Seq<A>, p: spec_fn(A) -> bool, k: int)
    requires
        0 <= k < s.len(),
        p(s[k]),
        forall|j: int| 0 <= j < s.len() && j != k ==> !p(#[trigger] s[j]),
    ensures
        count(s, p) == 1,
    decreases s.len(),
{
    assert(forall|j: int| 0 <= j < s.len() - 1 ==> s.drop_last()[j] == s[j]);
    if k == s.len() - 1 {
        lemma_count_none(s.drop_last(), p);
    } else {
        lemma_count_one(s.drop_last(), p, k);
    }
}

/// Where `p` holds nowhere, it holds no times.
pub proof fn lemma_count_none<A>(s: Seq<A>, p: spec_fn(A) -> bool)
    requires
        forall|j: int| 0 <= j < s.len() ==> !p(#[trigger] s[j]),
    ensures
        count(s, p) == 0,
    decreases s.len(),
{
    if s.len() > 0 {
        assert(forall|j: int| 0 <= j < s.len() - 1 ==> s.drop_last()[j] == s[j]);
        lemma_count_none(s.drop_last(), p);
    }
}

/// The count is at most the length.
pub proof fn lemma_count_bound<A>(s: Seq<A>, p: spec_fn(A) -> bool)
    ensures
        count(s, p) <= s.len(),
    decreases s.len(),
{
    if s.len() > 0 {
        lemma_count_bound(s.drop_last(), p);
    }
}

} // verus!
