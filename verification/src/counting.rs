use vstd::prelude::*;

verus! {

/// Number of elements of `s` that satisfy `p`.
pub open spec fn count_matching<T>(s: Seq<T>, p: spec_fn(T) -> bool) -> nat
    decreases s.len(),
{
    if s.len() == 0 {
        0
    } else {
        count_matching(s.drop_last(), p) + if p(s.last()) {
            1nat
        } else {
            0nat
        }
    }
}

/// Extending a prefix by one element adds that element's match.
pub proof fn lemma_count_matching_prefix<T>(s: Seq<T>, p: spec_fn(T) -> bool, i: int)
    requires
        0 <= i < s.len(),
    ensures
        count_matching(s.subrange(0, i + 1), p) == count_matching(s.subrange(0, i), p) + if p(
            s[i],
        ) {
            1nat
        } else {
            0nat
        },
{
    assert(s.subrange(0, i + 1).drop_last() =~= s.subrange(0, i));
}

/// No element matches exactly when the count is zero.
pub proof fn lemma_count_matching_zero<T>(s: Seq<T>, p: spec_fn(T) -> bool)
    ensures
        count_matching(s, p) == 0 <==> forall|i: int| 0 <= i < s.len() ==> !p(#[trigger] s[i]),
    decreases s.len(),
{
    if s.len() > 0 {
        lemma_count_matching_zero(s.drop_last(), p);
        assert forall|i: int| 0 <= i < s.len() - 1 implies s.drop_last()[i] == s[i] by {}
    }
}

/// Counting is monotone in the predicate: a predicate implied by another
/// matches at least as many elements.
pub proof fn lemma_count_matching_monotone<T>(s: Seq<T>, p: spec_fn(T) -> bool, q: spec_fn(T) -> bool)
    requires
        forall|x: T| #[trigger] p(x) ==> q(x),
    ensures
        count_matching(s, p) <= count_matching(s, q),
    decreases s.len(),
{
    if s.len() > 0 {
        lemma_count_matching_monotone(s.drop_last(), p, q);
    }
}

/// Splitting a predicate `p` by a second predicate `q`: the elements that
/// match `p` are those that match `p` and `q` plus those that match `p` but
/// not `q`.
pub proof fn lemma_count_matching_split<T>(
    s: Seq<T>,
    p: spec_fn(T) -> bool,
    q: spec_fn(T) -> bool,
    both: spec_fn(T) -> bool,
    only_p: spec_fn(T) -> bool,
)
    requires
        forall|x: T| #[trigger] both(x) == (p(x) && q(x)),
        forall|x: T| #[trigger] only_p(x) == (p(x) && !q(x)),
    ensures
        count_matching(s, both) + count_matching(s, only_p) == count_matching(s, p),
    decreases s.len(),
{
    if s.len() > 0 {
        lemma_count_matching_split(s.drop_last(), p, q, both, only_p);
        assert(both(s.last()) == (p(s.last()) && q(s.last())));
        assert(only_p(s.last()) == (p(s.last()) && !q(s.last())));
    }
}

} // verus!
