use vstd::prelude::*;

verus! {

/// Index of the last occurrence of `c` in `s`.
pub open spec fn last_index_of<A>(s: Seq<A>, c: A) -> Option<int>
    decreases s.len(),
{
    if s.len() == 0 {
        None
    } else if s.last() == c {
        Some(s.len() - 1)
    } else {
        last_index_of(s.drop_last(), c)
    }
}

/// `last_index_of` finds `c` where it stands, and nothing after it is `c`;
/// when it finds nothing, no element is `c`.
pub proof fn lemma_last_index_bounds<A>(s: Seq<A>, c: A)
    ensures
        match last_index_of(s, c) {
            None => forall|i: int| 0 <= i < s.len() ==> s[i] != c,
            Some(p) => 0 <= p < s.len() && s[p] == c && forall|i: int|
                p < i < s.len() ==> s[i] != c,
        },
    decreases s.len(),
{
    if s.len() > 0 && s.last() != c {
        let t = s.drop_last();
        lemma_last_index_bounds(t, c);
        assert forall|i: int| 0 <= i < t.len() implies t[i] == s[i] by {}
    }
}

/// Dropping a tail that holds no `c` does not move the last `c`.
pub proof fn lemma_last_index_prefix<A>(s: Seq<A>, c: A, k: int)
    requires
        0 <= k <= s.len(),
        forall|i: int| k <= i < s.len() ==> s[i] != c,
    ensures
        last_index_of(s, c) == last_index_of(s.subrange(0, k), c),
    decreases s.len() - k,
{
    if k < s.len() {
        let t = s.drop_last();
        assert(s.last() != c);
        assert forall|i: int| k <= i < t.len() implies t[i] != c by {
            assert(t[i] == s[i]);
        }
        lemma_last_index_prefix(t, c, k);
        assert(t.subrange(0, k) =~= s.subrange(0, k));
    } else {
        assert(s.subrange(0, k) =~= s);
    }
}

} // verus!
