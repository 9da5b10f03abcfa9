//! Properties of the store that relate several operations, stated over the
//! models that the operations' contracts use.
use vstd::prelude::*;
use crate::codec::Codec;
use crate::model::{lists, lists_entries, read_entries, scope, Rows, ScopedRows};

verus! {

/// The entries that result from writing `vs[i]` under `ks[i]`, in order,
/// starting from `m`.
pub open spec fn put_all<K: Codec, V: Codec>(m: Rows, ks: Seq<K::V>, vs: Seq<V::V>) -> Rows
    decreases ks.len(),
{
    if ks.len() == 0 {
        m
    } else {
        put_all::<K, V>(m, ks.drop_last(), vs.drop_last()).insert(
            K::encoding_of(ks.last()),
            V::encoding_of(vs.last()),
        )
    }
}

/// A value written under a key reads back as that value: after a `put` or a
/// `set` of `v` under `k`, the entry under `k` is there and decodes to `v`.
pub proof fn lemma_round_trip<K: Codec, V: Codec>(m: Rows, k: K::V, v: V::V)
    ensures
        ({
            let after = m.insert(K::encoding_of(k), V::encoding_of(v));
            &&& after.contains_key(K::encoding_of(k))
            &&& V::decoding_of(after[K::encoding_of(k)]) == Some(v)
        }),
{
    V::lemma_round_trip(v);
}

/// Two upserts under one key leave the second value.
pub proof fn lemma_upsert_last_wins<K: Codec, V: Codec>(m: Rows, k: K::V, v1: V::V, v2: V::V)
    ensures
        ({
            let kb = K::encoding_of(k);
            let after = m.insert(kb, V::encoding_of(v1)).insert(kb, V::encoding_of(v2));
            &&& after.contains_key(kb)
            &&& V::decoding_of(after[kb]) == Some(v2)
        }),
{
    V::lemma_round_trip(v2);
}

/// Deleting an absent key changes nothing.
pub proof fn lemma_delete_absent<K: Codec>(m: Rows, k: K::V)
    requires
        !m.contains_key(K::encoding_of(k)),
    ensures
        m.remove(K::encoding_of(k)) == m,
{
    assert(m.remove(K::encoding_of(k)) =~= m);
}

/// Writing distinct keys one after another from no entries gives exactly
/// those entries, one per key.
pub proof fn lemma_put_all<K: Codec, V: Codec>(ks: Seq<K::V>, vs: Seq<V::V>)
    requires
        ks.len() == vs.len(),
        ks.no_duplicates(),
    ensures
        ({
            let m = put_all::<K, V>(Rows::empty(), ks, vs);
            &&& m.dom().finite()
            &&& m.len() == ks.len()
            &&& forall|i: int|
                0 <= i < ks.len() ==> #[trigger] m.contains_key(K::encoding_of(ks[i]))
                    && m[K::encoding_of(ks[i])] == V::encoding_of(vs[i])
            &&& forall|kb: Seq<u8>| #[trigger]
                m.contains_key(kb) ==> exists|i: int| 0 <= i < ks.len() && kb == K::encoding_of(ks[i])
        }),
    decreases ks.len(),
{
    if ks.len() > 0 {
        let n = ks.len() - 1;
        let ks0 = ks.drop_last();
        let vs0 = vs.drop_last();
        assert(ks0.no_duplicates()) by {
            assert forall|i: int, j: int| 0 <= i < ks0.len() && 0 <= j < ks0.len() && i != j
                implies ks0[i] != ks0[j] by {
                assert(ks0[i] == ks[i] && ks0[j] == ks[j]);
            }
        }
        lemma_put_all::<K, V>(ks0, vs0);
        let m0 = put_all::<K, V>(Rows::empty(), ks0, vs0);
        let kb = K::encoding_of(ks[n]);
        assert(!m0.contains_key(kb)) by {
            if m0.contains_key(kb) {
                let i = choose|i: int| 0 <= i < ks0.len() && kb == K::encoding_of(ks0[i]);
                K::lemma_encoding_injective(ks0[i], ks[n]);
                assert(ks[i] == ks[n]);
            }
        }
        let m = put_all::<K, V>(Rows::empty(), ks, vs);
        assert(m == m0.insert(kb, V::encoding_of(vs[n])));
        assert forall|i: int| 0 <= i < ks.len() implies #[trigger] m.contains_key(
            K::encoding_of(ks[i]),
        ) && m[K::encoding_of(ks[i])] == V::encoding_of(vs[i]) by {
            if i < n {
                assert(ks0[i] == ks[i] && vs0[i] == vs[i]);
                assert(m0.contains_key(K::encoding_of(ks0[i])));
                K::lemma_encoding_injective(ks[i], ks[n]);
            }
        }
        assert forall|b: Seq<u8>| #[trigger] m.contains_key(b) implies exists|i: int|
            0 <= i < ks.len() && b == K::encoding_of(ks[i]) by {
            if b != kb {
                assert(m0.contains_key(b));
                let i = choose|i: int| 0 <= i < ks0.len() && b == K::encoding_of(ks0[i]);
                assert(ks0[i] == ks[i]);
            }
        }
    } else {
        assert(put_all::<K, V>(Rows::empty(), ks, vs) == Rows::empty());
    }
}

/// After distinct keys `ks` are written with values `vs` into an empty store,
/// a scan that lists the entries returns exactly those pairs, each once, and
/// the count of entries is their number.
pub proof fn lemma_scan_complete<K: Codec, V: Codec>(
    ks: Seq<K::V>,
    vs: Seq<V::V>,
    es: Seq<(K, V)>,
)
    requires
        ks.len() == vs.len(),
        ks.no_duplicates(),
        lists_entries(es, put_all::<K, V>(Rows::empty(), ks, vs)),
    ensures
        put_all::<K, V>(Rows::empty(), ks, vs).len() == ks.len(),
        es.len() == ks.len(),
        forall|i: int|
            0 <= i < ks.len() ==> exists|j: int|
                0 <= j < es.len() && #[trigger] es[j].0@ == #[trigger] ks[i] && es[j].1@ == vs[i],
        forall|j: int|
            0 <= j < es.len() ==> exists|i: int|
                0 <= i < ks.len() && #[trigger] es[j].0@ == #[trigger] ks[i] && es[j].1@ == vs[i],
{
    let m = put_all::<K, V>(Rows::empty(), ks, vs);
    lemma_put_all::<K, V>(ks, vs);
    let rows = choose|rows: Seq<(Vec<u8>, Vec<u8>)>| lists(rows, m) && read_entries(rows, es);
    assert forall|i: int| 0 <= i < ks.len() implies exists|j: int|
        0 <= j < es.len() && #[trigger] es[j].0@ == #[trigger] ks[i] && es[j].1@ == vs[i] by {
        let kb = K::encoding_of(ks[i]);
        assert(m.contains_key(kb));
        let j = choose|j: int| 0 <= j < rows.len() && rows[j].0@ == kb;
        assert(K::decoding_of(rows[j].0@) == Some(es[j].0@));
        K::lemma_round_trip(ks[i]);
        V::lemma_round_trip(vs[i]);
        assert(es[j].0@ == ks[i]);
    }
    assert forall|j: int| 0 <= j < es.len() implies exists|i: int|
        0 <= i < ks.len() && #[trigger] es[j].0@ == #[trigger] ks[i] && es[j].1@ == vs[i] by {
        assert(m.contains_key(rows[j].0@));
        let i = choose|i: int| 0 <= i < ks.len() && rows[j].0@ == K::encoding_of(ks[i]);
        assert(K::decoding_of(rows[j].0@) == Some(es[j].0@));
        K::lemma_round_trip(ks[i]);
        V::lemma_round_trip(vs[i]);
        assert(m.contains_key(K::encoding_of(ks[i])));
    }
}

/// Collections do not collide: with one key written in collection `x` and
/// then in collection `y`, each collection holds its own value, and a write
/// in one leaves the entries of the other as they were.
pub proof fn lemma_namespace_isolation(
    t: ScopedRows,
    x: Seq<char>,
    y: Seq<char>,
    kb: Seq<u8>,
    a: Seq<u8>,
    b: Seq<u8>,
)
    requires
        x != y,
    ensures
        scope(t.insert((x, kb), a), y) == scope(t, y),
        ({
            let both = t.insert((x, kb), a).insert((y, kb), b);
            &&& scope(both, x).contains_key(kb) && scope(both, x)[kb] == a
            &&& scope(both, y).contains_key(kb) && scope(both, y)[kb] == b
        }),
{
    assert(scope(t.insert((x, kb), a), y) =~= scope(t, y));
}

} // verus!
