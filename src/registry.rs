use vstd::prelude::*;

verus! {

/// The last position in `s` whose element satisfies `p`, or -1 where none does.
pub open spec fn last_index_where<T>(s: Seq<T>, p: spec_fn(T) -> bool) -> int
    decreases s.len(),
{
    if s.len() == 0 {
        -1
    } else if p(s.last()) {
        s.len() - 1
    } else {
        last_index_where(s.drop_last(), p)
    }
}

/// The position found is a position of `s` whose element satisfies `p`, with none
/// after it; -1 means no element satisfies `p`.
pub proof fn lemma_last_index_where<T>(s: Seq<T>, p: spec_fn(T) -> bool)
    ensures
        -1 <= last_index_where(s, p) < s.len(),
        last_index_where(s, p) >= 0 ==> p(s[last_index_where(s, p)]),
        forall|j: int| last_index_where(s, p) < j < s.len() ==> !p(#[trigger] s[j]),
    decreases s.len(),
{
    if s.len() > 0 {
        lemma_last_index_where(s.drop_last(), p);
        assert forall|j: int| last_index_where(s, p) < j < s.len() implies !p(#[trigger] s[j]) by {
            if j < s.len() - 1 {
                assert(s[j] == s.drop_last()[j]);
            }
        }
    }
}

/// Looking in a prefix one element shorter.
pub proof fn lemma_last_index_step<T>(s: Seq<T>, p: spec_fn(T) -> bool, i: int)
    requires
        0 < i <= s.len(),
    ensures
        p(s[i - 1]) ==> last_index_where(s.subrange(0, i), p) == i - 1,
        !p(s[i - 1]) ==> last_index_where(s.subrange(0, i), p) == last_index_where(
            s.subrange(0, i - 1),
            p,
        ),
{
    assert(s.subrange(0, i).drop_last() =~= s.subrange(0, i - 1));
}

/// Replacing an element by one that `p` judges the same way moves nothing.
pub proof fn lemma_last_index_update<T>(s: Seq<T>, p: spec_fn(T) -> bool, i: int, x: T)
    requires
        0 <= i < s.len(),
        p(x) == p(s[i]),
    ensures
        last_index_where(s.update(i, x), p) == last_index_where(s, p),
    decreases s.len(),
{
    let t = s.update(i, x);
    if i == s.len() - 1 {
        assert(t.drop_last() =~= s.drop_last());
    } else {
        assert(t.drop_last() =~= s.drop_last().update(i, x));
        lemma_last_index_update(s.drop_last(), p, i, x);
    }
}

} // verus!
