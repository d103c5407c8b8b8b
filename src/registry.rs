use vstd::prelude::*;
use crate::addr::SockAddr;
use crate::seqs::{last_index_of, lemma_last_index_bounds, lemma_last_index_prefix};

verus! {

/// A value registered under a local socket address.
#[derive(Debug)]
pub struct Keyed<V> {
    pub addr: SockAddr,
    pub value: V,
}

pub open spec fn keys_of<V>(s: Seq<Keyed<V>>) -> Seq<SockAddr> {
    s.map_values(|e: Keyed<V>| e.addr)
}

/// No address is registered twice.
pub open spec fn unique_keys<V>(s: Seq<Keyed<V>>) -> bool {
    forall|i: int, j: int| 0 <= i < s.len() && 0 <= j < s.len() && i != j ==> #[trigger] s[i].addr
        != #[trigger] s[j].addr
}

pub open spec fn has_key<V>(s: Seq<Keyed<V>>, a: SockAddr) -> bool {
    exists|i: int| 0 <= i < s.len() && #[trigger] s[i].addr == a
}

/// Position of the entry for `a`.
pub open spec fn key_pos<V>(s: Seq<Keyed<V>>, a: SockAddr) -> Option<int> {
    last_index_of(keys_of(s), a)
}

/// The registry after registering `v` under `a`: the entry for `a` is replaced
/// when there is one, else the entry is appended.
pub open spec fn spec_put<V>(s: Seq<Keyed<V>>, a: SockAddr, v: V) -> Seq<Keyed<V>> {
    match key_pos(s, a) {
        Some(i) => s.update(i, Keyed { addr: a, value: v }),
        None => s.push(Keyed { addr: a, value: v }),
    }
}

/// The registry after removing the entry for `a`, if any.
pub open spec fn spec_take<V>(s: Seq<Keyed<V>>, a: SockAddr) -> Seq<Keyed<V>> {
    match key_pos(s, a) {
        Some(i) => s.remove(i),
        None => s,
    }
}

pub proof fn lemma_key_pos<V>(s: Seq<Keyed<V>>, a: SockAddr)
    ensures
        match key_pos(s, a) {
            None => !has_key(s, a),
            Some(p) => 0 <= p < s.len() && s[p].addr == a,
        },
{
    lemma_last_index_bounds(keys_of(s), a);
    if key_pos(s, a) is None {
        assert forall|i: int| 0 <= i < s.len() implies s[i].addr != a by {
            assert(keys_of(s)[i] == s[i].addr);
        }
    } else {
        let p = key_pos(s, a)->0;
        assert(keys_of(s)[p] == s[p].addr);
    }
}

/// After registering under `a`, `a` has exactly one entry, holding the new
/// value, and no address is registered twice.
pub proof fn lemma_put_registers_once<V>(s: Seq<Keyed<V>>, a: SockAddr, v: V)
    requires
        unique_keys(s),
    ensures
        unique_keys(spec_put(s, a, v)),
        has_key(spec_put(s, a, v), a),
        forall|i: int|
            0 <= i < spec_put(s, a, v).len() && #[trigger] spec_put(s, a, v)[i].addr == a
                ==> spec_put(s, a, v)[i] == (Keyed { addr: a, value: v }),
{
    lemma_key_pos(s, a);
    let t = spec_put(s, a, v);
    match key_pos(s, a) {
        Some(p) => {
            assert(t[p].addr == a);
        },
        None => {
            assert(t[s.len() as int].addr == a);
        },
    }
}

/// After removing `a`, `a` has no entry, and no address is registered twice.
pub proof fn lemma_take_unregisters<V>(s: Seq<Keyed<V>>, a: SockAddr)
    requires
        unique_keys(s),
    ensures
        unique_keys(spec_take(s, a)),
        !has_key(spec_take(s, a), a),
{
    lemma_key_pos(s, a);
    let t = spec_take(s, a);
    match key_pos(s, a) {
        Some(p) => {
            assert forall|i: int| 0 <= i < t.len() implies t[i].addr != a by {
                if i < p {
                    assert(t[i] == s[i]);
                } else {
                    assert(t[i] == s[i + 1]);
                }
            }
            assert forall|i: int, j: int|
                0 <= i < t.len() && 0 <= j < t.len() && i != j implies #[trigger] t[i].addr
                != #[trigger] t[j].addr by {
                let si = if i < p { i } else { i + 1 };
                let sj = if j < p { j } else { j + 1 };
                assert(t[i] == s[si]);
                assert(t[j] == s[sj]);
            }
        },
        None => {},
    }
}

/// Position of the entry for `a`.
pub fn find_key<V>(s: &Vec<Keyed<V>>, a: SockAddr) -> (r: Option<usize>)
    ensures
        r matches Some(p) ==> key_pos(s@, a) == Some(p as int) && p < s@.len(),
        r is None ==> key_pos(s@, a) is None,
{
    let ghost keys = keys_of(s@);
    let mut k = s.len();
    while k > 0
        invariant
            k <= s@.len(),
            keys == keys_of(s@),
            forall|i: int| k <= i < s@.len() ==> keys[i] != a,
        decreases k,
    {
        if s[k - 1].addr == a {
            proof {
                lemma_last_index_prefix(keys, a, k as int);
                assert(keys.subrange(0, k as int).drop_last() =~= keys.subrange(0, k - 1));
            }
            return Some(k - 1);
        }
        k = k - 1;
    }
    proof {
        lemma_last_index_prefix(keys, a, 0);
    }
    None
}

/// Registers `v` under `a`, replacing an earlier entry for `a`.
pub fn put_key<V>(s: &mut Vec<Keyed<V>>, a: SockAddr, v: V)
    ensures
        final(s)@ == spec_put(old(s)@, a, v),
{
    match find_key(s, a) {
        Some(p) => {
            s.set(p, Keyed { addr: a, value: v });
        },
        None => {
            s.push(Keyed { addr: a, value: v });
        },
    }
}

/// Removes the entry for `a` and hands back its value.
pub fn take_key<V>(s: &mut Vec<Keyed<V>>, a: SockAddr) -> (r: Option<V>)
    ensures
        final(s)@ == spec_take(old(s)@, a),
        match key_pos(old(s)@, a) {
            Some(p) => r == Some(old(s)@[p].value),
            None => r is None,
        },
{
    match find_key(s, a) {
        Some(p) => {
            let e = s.remove(p);
            Some(e.value)
        },
        None => None,
    }
}

} // verus!
