use vstd::prelude::*;
use crate::codec::Codec;

verus! {

/// The stored rows of one table as a map from key bytes to value bytes.
pub type Rows = Map<Seq<u8>, Seq<u8>>;

/// The rows of the shared table, keyed by collection name and key bytes.
pub type ScopedRows = Map<(Seq<char>, Seq<u8>), Seq<u8>>;

/// The rows of collection `c` within the shared table.
pub open spec fn scope(t: ScopedRows, c: Seq<char>) -> Rows {
    Map::new(|k: Seq<u8>| t.contains_key((c, k)), |k: Seq<u8>| t[(c, k)])
}

/// The shared table with every row of collection `c` removed.
pub open spec fn without_scope(t: ScopedRows, c: Seq<char>) -> ScopedRows {
    t.restrict(t.dom().filter(|p: (Seq<char>, Seq<u8>)| p.0 != c))
}

/// `rows` lists each entry of `m` exactly once, in some order.
pub open spec fn lists(rows: Seq<(Vec<u8>, Vec<u8>)>, m: Rows) -> bool {
    &&& m.dom().finite()
    &&& rows.len() == m.len()
    &&& forall|i: int|
        0 <= i < rows.len() ==> #[trigger] m.contains_key(rows[i].0@) && m[rows[i].0@]
            == rows[i].1@
    &&& forall|i: int, j: int|
        0 <= i < j < rows.len() ==> #[trigger] rows[i].0@ != #[trigger] rows[j].0@
    &&& forall|k: Seq<u8>| #[trigger]
        m.contains_key(k) ==> exists|i: int| 0 <= i < rows.len() && rows[i].0@ == k
}

/// Every key of `m` reads back as a value of `K`.
pub open spec fn keys_decode<K: Codec>(m: Rows) -> bool {
    forall|k: Seq<u8>| #[trigger] m.contains_key(k) ==> K::decoding_of(k) is Some
}

/// Every entry of `m` reads back as a pair of `K` and `V`.
pub open spec fn entries_decode<K: Codec, V: Codec>(m: Rows) -> bool {
    forall|k: Seq<u8>| #[trigger]
        m.contains_key(k) ==> K::decoding_of(k) is Some && V::decoding_of(m[k]) is Some
}

/// `ks` holds the key of each row of `rows`, read back, in the same order.
pub open spec fn read_keys<K: Codec>(rows: Seq<(Vec<u8>, Vec<u8>)>, ks: Seq<K>) -> bool {
    &&& ks.len() == rows.len()
    &&& forall|i: int| 0 <= i < rows.len() ==> K::decoding_of(#[trigger] rows[i].0@) == Some(ks[i]@)
}

/// `es` holds each row of `rows`, read back, in the same order.
pub open spec fn read_entries<K: Codec, V: Codec>(
    rows: Seq<(Vec<u8>, Vec<u8>)>,
    es: Seq<(K, V)>,
) -> bool {
    &&& es.len() == rows.len()
    &&& forall|i: int|
        0 <= i < rows.len() ==> K::decoding_of(#[trigger] rows[i].0@) == Some(es[i].0@)
            && V::decoding_of(rows[i].1@) == Some(es[i].1@)
}

/// `ks` holds each key of `m` once, read back, in some order.
pub open spec fn lists_keys<K: Codec>(ks: Seq<K>, m: Rows) -> bool {
    exists|rows: Seq<(Vec<u8>, Vec<u8>)>| lists(rows, m) && read_keys(rows, ks)
}

/// `es` holds each entry of `m` once, read back, in some order.
pub open spec fn lists_entries<K: Codec, V: Codec>(es: Seq<(K, V)>, m: Rows) -> bool {
    exists|rows: Seq<(Vec<u8>, Vec<u8>)>| lists(rows, m) && read_entries(rows, es)
}

} // verus!
