//! Spec helpers over sequences: the first index that satisfies a predicate,
//! and how many elements satisfy it.
use vstd::prelude::*;

verus! {

/// The first index at or after `start` whose element satisfies `p`, or `s.len()` if none does.
pub open spec fn first_from<T>(s: Seq<T>, p: spec_fn(T) -> bool, start: int) -> int
    decreases s.len() - start,
{
    if start < 0 || start >= s.len() {
        s.len() as int
    } else if p(s[start]) {
        start
    } else {
        first_from(s, p, start + 1)
    }
}

/// The first index whose element satisfies `p`, or `s.len()` if none does.
pub open spec fn first_index<T>(s: Seq<T>, p: spec_fn(T) -> bool) -> int {
    first_from(s, p, 0)
}

/// How many elements before index `end` satisfy `p`.
pub open spec fn count_upto<T>(s: Seq<T>, p: spec_fn(T) -> bool, end: int) -> nat
    decreases end,
{
    if end <= 0 {
        0
    } else {
        count_upto(s, p, end - 1) + (if end - 1 < s.len() && p(s[end - 1]) { 1nat } else { 0nat })
    }
}

/// How many elements satisfy `p`.
pub open spec fn count<T>(s: Seq<T>, p: spec_fn(T) -> bool) -> nat {
    count_upto(s, p, s.len() as int)
}

pub proof fn lemma_first_from<T>(s: Seq<T>, p: spec_fn(T) -> bool, start: int)
    requires
        0 <= start <= s.len(),
    ensures
        start <= first_from(s, p, start) <= s.len(),
        first_from(s, p, start) < s.len() ==> p(s[first_from(s, p, start)]),
        forall|j: int| start <= j < first_from(s, p, start) ==> !p(#[trigger] s[j]),
    decreases s.len() - start,
{
    if start < s.len() && !p(s[start]) {
        lemma_first_from(s, p, start + 1);
    }
}

/// The first index is where no earlier element satisfies `p` and this one does (or the end).
pub proof fn lemma_first_index<T>(s: Seq<T>, p: spec_fn(T) -> bool)
    ensures
        0 <= first_index(s, p) <= s.len(),
        first_index(s, p) < s.len() ==> p(s[first_index(s, p)]),
        forall|j: int| 0 <= j < first_index(s, p) ==> !p(#[trigger] s[j]),
        first_index(s, p) == s.len() <==> forall|j: int| 0 <= j < s.len() ==> !p(#[trigger] s[j]),
{
    lemma_first_from(s, p, 0);
}

/// An index that satisfies `p` with no earlier one that does is the first index.
pub proof fn lemma_first_index_at<T>(s: Seq<T>, p: spec_fn(T) -> bool, i: int)
    requires
        0 <= i < s.len(),
        p(s[i]),
        forall|j: int| 0 <= j < i ==> !p(#[trigger] s[j]),
    ensures
        first_index(s, p) == i,
{
    lemma_first_index(s, p);
    if first_index(s, p) < i {
        let f = first_index(s, p);
        assert(p(s[f]));
    }
}

pub proof fn lemma_count_upto_bound<T>(s: Seq<T>, p: spec_fn(T) -> bool, end: int)
    requires
        0 <= end <= s.len(),
    ensures
        count_upto(s, p, end) <= end,
    decreases end,
{
    if end > 0 {
        lemma_count_upto_bound(s, p, end - 1);
    }
}

/// A count is zero exactly when no element before `end` satisfies the predicate.
pub proof fn lemma_count_upto_zero<T>(s: Seq<T>, p: spec_fn(T) -> bool, end: int)
    requires
        0 <= end <= s.len(),
    ensures
        count_upto(s, p, end) == 0 <==> forall|j: int| 0 <= j < end ==> !p(#[trigger] s[j]),
    decreases end,
{
    if end > 0 {
        lemma_count_upto_zero(s, p, end - 1);
    }
}

/// Counting over two sequences that agree on the predicate at every index gives the same number.
pub proof fn lemma_count_upto_same<T>(s: Seq<T>, t: Seq<T>, p: spec_fn(T) -> bool, q: spec_fn(T) -> bool, end: int)
    requires
        0 <= end <= s.len(),
        end <= t.len(),
        forall|j: int| 0 <= j < end ==> p(#[trigger] s[j]) == q(t[j]),
    ensures
        count_upto(s, p, end) == count_upto(t, q, end),
    decreases end,
{
    if end > 0 {
        lemma_count_upto_same(s, t, p, q, end - 1);
    }
}

/// Counting over a sequence that differs at one index.
pub proof fn lemma_count_upto_update<T>(s: Seq<T>, p: spec_fn(T) -> bool, i: int, v: T, end: int)
    requires
        0 <= end <= s.len(),
        0 <= i < s.len(),
    ensures
        i < end ==> count_upto(s.update(i, v), p, end) + (if p(s[i]) { 1int } else { 0int })
            == count_upto(s, p, end) + (if p(v) { 1int } else { 0int }),
        end <= i ==> count_upto(s.update(i, v), p, end) == count_upto(s, p, end),
    decreases end,
{
    if end > 0 {
        lemma_count_upto_update(s, p, i, v, end - 1);
    }
}

} // verus!
