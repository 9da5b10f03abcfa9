use vstd::prelude::*;
use vstd::utf8::encode_utf8;
use postcard::Error as PostcardError;
use crate::err::Error;
use crate::model::{read_entries, read_keys};

verus! {

#[verifier::external_type_specification]
#[verifier::external_body]
pub struct ExPostcardError(PostcardError);

/// The LEB128 varint of `n`: seven bits per byte, least significant first,
/// with the high bit set on every byte but the last.
pub open spec fn varint(n: nat) -> Seq<u8>
    decreases n,
{
    if n < 128 {
        seq![n as u8]
    } else {
        seq![(n % 128 + 128) as u8] + varint(n / 128)
    }
}

/// A type whose values the store can hold, with a deterministic byte
/// encoding over its view.
pub trait Codec: View + Sized {
    /// The bytes that stand for a value with view `v`.
    spec fn encoding_of(v: Self::V) -> Seq<u8>;

    /// The value, if any, that a byte string reads back as.
    spec fn decoding_of(bytes: Seq<u8>) -> Option<Self::V>;

    /// The name under which the registry records this type: stable across
    /// runs, and different for types whose encodings differ.
    spec fn signature() -> Seq<char>;

    fn type_signature() -> (r: String)
        ensures
            r@ == Self::signature(),
    ;

    fn encode(&self) -> (r: Result<Vec<u8>, PostcardError>)
        ensures
            r is Ok && r->Ok_0@ == Self::encoding_of(self@),
    ;

    fn decode(bytes: &[u8]) -> (r: Result<Self, PostcardError>)
        ensures
            r is Ok <==> Self::decoding_of(bytes@) is Some,
            r is Ok ==> Self::decoding_of(bytes@) == Some(r->Ok_0@),
    ;

    /// An encoding reads back as the value it encodes.
    proof fn lemma_round_trip(v: Self::V)
        ensures
            Self::decoding_of(Self::encoding_of(v)) == Some(v),
    ;

    /// Distinct values have distinct encodings.
    proof fn lemma_encoding_injective(a: Self::V, b: Self::V)
        ensures
            Self::encoding_of(a) == Self::encoding_of(b) ==> a == b,
    ;
}

/// What `postcard::from_bytes::<u32>` reads from a byte string.
pub uninterp spec fn postcard_u32(bytes: Seq<u8>) -> Option<u32>;

/// What `postcard::from_bytes::<String>` reads from a byte string.
pub uninterp spec fn postcard_string(bytes: Seq<u8>) -> Option<Seq<char>>;

/// Relies on postcard::to_stdvec for u32: the value is written as its varint
/// into a growable vector, which never reports a full buffer.
#[verifier::external_body]
fn postcard_encode_u32(x: u32) -> (r: Result<Vec<u8>, PostcardError>)
    ensures
        r is Ok && r->Ok_0@ == varint(x as nat),
{
    postcard::to_stdvec(&x)
}

/// Relies on postcard::from_bytes for u32: the result depends on the bytes
/// alone, and the varint of a value reads back as that value.
#[verifier::external_body]
fn postcard_decode_u32(bytes: &[u8]) -> (r: Result<u32, PostcardError>)
    ensures
        r is Ok <==> postcard_u32(bytes@) is Some,
        r is Ok ==> postcard_u32(bytes@) == Some(r->Ok_0),
        forall|x: u32| bytes@ == #[trigger] varint(x as nat) ==> (r is Ok && r->Ok_0 == x),
{
    postcard::from_bytes(bytes)
}

/// Relies on postcard::to_stdvec for strings: the varint of the UTF-8
/// length, then the UTF-8 bytes, into a growable vector that never reports a
/// full buffer.
#[verifier::external_body]
fn postcard_encode_string(s: &String) -> (r: Result<Vec<u8>, PostcardError>)
    ensures
        r is Ok && r->Ok_0@ == string_encoding(s@),
{
    postcard::to_stdvec(s)
}

/// Relies on postcard::from_bytes for strings: the result depends on the
/// bytes alone, and the encoding of a string reads back as that string.
#[verifier::external_body]
fn postcard_decode_string(bytes: &[u8]) -> (r: Result<String, PostcardError>)
    ensures
        r is Ok <==> postcard_string(bytes@) is Some,
        r is Ok ==> postcard_string(bytes@) == Some(r->Ok_0@),
        forall|s: Seq<char>|
            bytes@ == #[trigger] string_encoding(s) ==> (r is Ok && r->Ok_0@ == s),
{
    postcard::from_bytes(bytes)
}

/// What `postcard::from_bytes::<u64>` reads from a byte string.
pub uninterp spec fn postcard_u64(bytes: Seq<u8>) -> Option<u64>;

/// What `postcard::from_bytes::<Vec<u8>>` reads from a byte string.
pub uninterp spec fn postcard_bytes(bytes: Seq<u8>) -> Option<Seq<u8>>;

/// Relies on postcard::to_stdvec for u64: the value is written as its varint
/// into a growable vector, which never reports a full buffer.
#[verifier::external_body]
fn postcard_encode_u64(x: u64) -> (r: Result<Vec<u8>, PostcardError>)
    ensures
        r is Ok && r->Ok_0@ == varint(x as nat),
{
    postcard::to_stdvec(&x)
}

/// Relies on postcard::from_bytes for u64: the result depends on the bytes
/// alone, and the varint of a value reads back as that value.
#[verifier::external_body]
fn postcard_decode_u64(bytes: &[u8]) -> (r: Result<u64, PostcardError>)
    ensures
        r is Ok <==> postcard_u64(bytes@) is Some,
        r is Ok ==> postcard_u64(bytes@) == Some(r->Ok_0),
        forall|x: u64| bytes@ == #[trigger] varint(x as nat) ==> (r is Ok && r->Ok_0 == x),
{
    postcard::from_bytes(bytes)
}

/// Relies on postcard::to_stdvec for a byte vector (a sequence of u8): the
/// varint of its length, then each byte as itself, into a growable vector
/// that never reports a full buffer.
#[verifier::external_body]
fn postcard_encode_bytes(b: &Vec<u8>) -> (r: Result<Vec<u8>, PostcardError>)
    ensures
        r is Ok && r->Ok_0@ == bytes_encoding(b@),
{
    postcard::to_stdvec(b)
}

/// Relies on postcard::from_bytes for a byte vector: the result depends on
/// the bytes alone, and the encoding of a byte string reads back as it.
#[verifier::external_body]
fn postcard_decode_bytes(bytes: &[u8]) -> (r: Result<Vec<u8>, PostcardError>)
    ensures
        r is Ok <==> postcard_bytes(bytes@) is Some,
        r is Ok ==> postcard_bytes(bytes@) == Some(r->Ok_0@),
        forall|b: Seq<u8>| bytes@ == #[trigger] bytes_encoding(b) ==> (r is Ok && r->Ok_0@ == b),
{
    postcard::from_bytes(bytes)
}

/// The encoding of a byte string: the varint of its length, then its bytes.
pub open spec fn bytes_encoding(b: Seq<u8>) -> Seq<u8> {
    varint(b.len()) + b
}

/// The encoding of a string: the varint of its UTF-8 length, then its UTF-8
/// bytes.
pub open spec fn string_encoding(s: Seq<char>) -> Seq<u8> {
    varint(encode_utf8(s).len()) + encode_utf8(s)
}

/// A varint is never a proper prefix of another: two encodings that start two
/// byte strings equal only if the numbers and the rest are equal.
pub proof fn lemma_varint_prefix_free(a: nat, b: nat, x: Seq<u8>, y: Seq<u8>)
    requires
        varint(a) + x == varint(b) + y,
    ensures
        a == b,
        x == y,
    decreases a,
{
    let va = varint(a);
    let vb = varint(b);
    assert((va + x)[0] == va[0]);
    assert((vb + y)[0] == vb[0]);
    if a < 128 {
        if b >= 128 {
            assert(vb[0] >= 128);
        }
        assert(va + x == seq![a as u8] + x);
        assert((seq![a as u8] + x).subrange(1, (va + x).len() as int) == x);
        assert(vb + y == seq![b as u8] + y);
        assert((seq![b as u8] + y).subrange(1, (vb + y).len() as int) == y);
    } else {
        if b < 128 {
            assert(va[0] >= 128);
        }
        let ra = varint(a / 128);
        let rb = varint(b / 128);
        assert(va + x == seq![(a % 128 + 128) as u8] + (ra + x));
        assert(vb + y == seq![(b % 128 + 128) as u8] + (rb + y));
        let sa = seq![(a % 128 + 128) as u8] + (ra + x);
        let sb = seq![(b % 128 + 128) as u8] + (rb + y);
        assert(sa.subrange(1, sa.len() as int) == ra + x);
        assert(sb.subrange(1, sb.len() as int) == rb + y);
        lemma_varint_prefix_free(a / 128, b / 128, x, y);
    }
}

impl Codec for u32 {
    open spec fn signature() -> Seq<char> {
        "u32"@
    }

    fn type_signature() -> (r: String) {
        "u32".to_string()
    }

    open spec fn encoding_of(v: u32) -> Seq<u8> {
        varint(v as nat)
    }

    open spec fn decoding_of(bytes: Seq<u8>) -> Option<u32> {
        if exists|x: u32| #[trigger] varint(x as nat) == bytes {
            Some(choose|x: u32| #[trigger] varint(x as nat) == bytes)
        } else {
            postcard_u32(bytes)
        }
    }

    fn encode(&self) -> (r: Result<Vec<u8>, PostcardError>) {
        postcard_encode_u32(*self)
    }

    fn decode(bytes: &[u8]) -> (r: Result<u32, PostcardError>) {
        let r = postcard_decode_u32(bytes);
        proof {
            if exists|x: u32| #[trigger] varint(x as nat) == bytes@ {
                let x = choose|x: u32| #[trigger] varint(x as nat) == bytes@;
                assert(r is Ok && r->Ok_0 == x);
            }
        }
        r
    }

    proof fn lemma_round_trip(v: u32) {
        let x = choose|x: u32| #[trigger] varint(x as nat) == varint(v as nat);
        Self::lemma_encoding_injective(x, v);
    }

    proof fn lemma_encoding_injective(a: u32, b: u32) {
        if varint(a as nat) == varint(b as nat) {
            assert(varint(a as nat) + Seq::<u8>::empty() == varint(a as nat));
            assert(varint(b as nat) + Seq::<u8>::empty() == varint(b as nat));
            lemma_varint_prefix_free(a as nat, b as nat, Seq::empty(), Seq::empty());
        }
    }
}

impl Codec for String {
    open spec fn signature() -> Seq<char> {
        "alloc::string::String"@
    }

    fn type_signature() -> (r: String) {
        "alloc::string::String".to_string()
    }

    open spec fn encoding_of(v: Seq<char>) -> Seq<u8> {
        string_encoding(v)
    }

    open spec fn decoding_of(bytes: Seq<u8>) -> Option<Seq<char>> {
        if exists|s: Seq<char>| #[trigger] string_encoding(s) == bytes {
            Some(choose|s: Seq<char>| #[trigger] string_encoding(s) == bytes)
        } else {
            postcard_string(bytes)
        }
    }

    fn encode(&self) -> (r: Result<Vec<u8>, PostcardError>) {
        postcard_encode_string(self)
    }

    fn decode(bytes: &[u8]) -> (r: Result<String, PostcardError>) {
        let r = postcard_decode_string(bytes);
        proof {
            if exists|s: Seq<char>| #[trigger] string_encoding(s) == bytes@ {
                let s = choose|s: Seq<char>| #[trigger] string_encoding(s) == bytes@;
                assert(r is Ok && r->Ok_0@ == s);
            }
        }
        r
    }

    proof fn lemma_round_trip(v: Seq<char>) {
        let s = choose|s: Seq<char>| #[trigger] string_encoding(s) == string_encoding(v);
        Self::lemma_encoding_injective(s, v);
    }

    proof fn lemma_encoding_injective(a: Seq<char>, b: Seq<char>) {
        if string_encoding(a) == string_encoding(b) {
            lemma_varint_prefix_free(
                encode_utf8(a).len(),
                encode_utf8(b).len(),
                encode_utf8(a),
                encode_utf8(b),
            );
            vstd::utf8::encode_utf8_decode_utf8(a);
            vstd::utf8::encode_utf8_decode_utf8(b);
        }
    }
}

impl Codec for u64 {
    open spec fn signature() -> Seq<char> {
        "u64"@
    }

    fn type_signature() -> (r: String) {
        "u64".to_string()
    }

    open spec fn encoding_of(v: u64) -> Seq<u8> {
        varint(v as nat)
    }

    open spec fn decoding_of(bytes: Seq<u8>) -> Option<u64> {
        if exists|x: u64| #[trigger] varint(x as nat) == bytes {
            Some(choose|x: u64| #[trigger] varint(x as nat) == bytes)
        } else {
            postcard_u64(bytes)
        }
    }

    fn encode(&self) -> (r: Result<Vec<u8>, PostcardError>) {
        postcard_encode_u64(*self)
    }

    fn decode(bytes: &[u8]) -> (r: Result<u64, PostcardError>) {
        let r = postcard_decode_u64(bytes);
        proof {
            if exists|x: u64| #[trigger] varint(x as nat) == bytes@ {
                let x = choose|x: u64| #[trigger] varint(x as nat) == bytes@;
                assert(r is Ok && r->Ok_0 == x);
            }
        }
        r
    }

    proof fn lemma_round_trip(v: u64) {
        let x = choose|x: u64| #[trigger] varint(x as nat) == varint(v as nat);
        Self::lemma_encoding_injective(x, v);
    }

    proof fn lemma_encoding_injective(a: u64, b: u64) {
        if varint(a as nat) == varint(b as nat) {
            assert(varint(a as nat) + Seq::<u8>::empty() == varint(a as nat));
            assert(varint(b as nat) + Seq::<u8>::empty() == varint(b as nat));
            lemma_varint_prefix_free(a as nat, b as nat, Seq::empty(), Seq::empty());
        }
    }
}

impl Codec for Vec<u8> {
    open spec fn signature() -> Seq<char> {
        "alloc::vec::Vec<u8>"@
    }

    fn type_signature() -> (r: String) {
        "alloc::vec::Vec<u8>".to_string()
    }

    open spec fn encoding_of(v: Seq<u8>) -> Seq<u8> {
        bytes_encoding(v)
    }

    open spec fn decoding_of(bytes: Seq<u8>) -> Option<Seq<u8>> {
        if exists|b: Seq<u8>| #[trigger] bytes_encoding(b) == bytes {
            Some(choose|b: Seq<u8>| #[trigger] bytes_encoding(b) == bytes)
        } else {
            postcard_bytes(bytes)
        }
    }

    fn encode(&self) -> (r: Result<Vec<u8>, PostcardError>) {
        postcard_encode_bytes(self)
    }

    fn decode(bytes: &[u8]) -> (r: Result<Vec<u8>, PostcardError>) {
        let r = postcard_decode_bytes(bytes);
        proof {
            if exists|b: Seq<u8>| #[trigger] bytes_encoding(b) == bytes@ {
                let b = choose|b: Seq<u8>| #[trigger] bytes_encoding(b) == bytes@;
                assert(r is Ok && r->Ok_0@ == b);
            }
        }
        r
    }

    proof fn lemma_round_trip(v: Seq<u8>) {
        let b = choose|b: Seq<u8>| #[trigger] bytes_encoding(b) == bytes_encoding(v);
        Self::lemma_encoding_injective(b, v);
    }

    proof fn lemma_encoding_injective(a: Seq<u8>, b: Seq<u8>) {
        if bytes_encoding(a) == bytes_encoding(b) {
            lemma_varint_prefix_free(a.len(), b.len(), a, b);
        }
    }
}

/// Reads back a value that a lookup found: absence stays absence, and bytes
/// that do not decode are an error rather than absence.
pub fn decode_found<V: Codec>(found: Option<Vec<u8>>) -> (r: Result<Option<V>, Error>)
    ensures
        found is None ==> r is Ok && r->Ok_0 is None,
        found is Some ==> (r is Ok <==> V::decoding_of(found->Some_0@) is Some),
        found is Some && r is Ok ==> r->Ok_0 is Some && V::decoding_of(found->Some_0@) == Some(
            r->Ok_0->Some_0@,
        ),
        r is Err ==> r->Err_0 is SerializationError,
{
    match found {
        None => Ok(None),
        Some(bytes) => match V::decode(bytes.as_slice()) {
            Ok(v) => Ok(Some(v)),
            Err(e) => Err(Error::SerializationError(e)),
        },
    }
}

/// Reads back the key of every row, in order; the first key that does not
/// decode makes the whole read fail.
pub fn decode_keys<K: Codec>(rows: &Vec<(Vec<u8>, Vec<u8>)>) -> (r: Result<Vec<K>, Error>)
    ensures
        r is Ok <==> forall|i: int|
            0 <= i < rows.len() ==> K::decoding_of(#[trigger] rows@[i].0@) is Some,
        r is Ok ==> read_keys(rows@, r->Ok_0@),
        r is Err ==> r->Err_0 is SerializationError,
{
    let mut ks: Vec<K> = Vec::new();
    let mut i: usize = 0;
    while i < rows.len()
        invariant
            i <= rows.len(),
            read_keys(rows@.subrange(0, i as int), ks@),
            forall|j: int| 0 <= j < i ==> K::decoding_of(#[trigger] rows@[j].0@) is Some,
        decreases rows.len() - i,
    {
        match K::decode(rows[i].0.as_slice()) {
            Ok(k) => {
                ks.push(k);
            },
            Err(e) => {
                return Err(Error::SerializationError(e));
            },
        }
        i = i + 1;
        assert(rows@.subrange(0, i as int).drop_last() == rows@.subrange(0, i - 1));
    }
    assert(rows@.subrange(0, i as int) == rows@);
    Ok(ks)
}

/// Reads back every row as a key and a value, in order; the first row that
/// does not decode makes the whole read fail.
pub fn decode_entries<K: Codec, V: Codec>(rows: &Vec<(Vec<u8>, Vec<u8>)>) -> (r: Result<
    Vec<(K, V)>,
    Error,
>)
    ensures
        r is Ok <==> forall|i: int|
            0 <= i < rows.len() ==> K::decoding_of(#[trigger] rows@[i].0@) is Some
                && V::decoding_of(rows@[i].1@) is Some,
        r is Ok ==> read_entries(rows@, r->Ok_0@),
        r is Err ==> r->Err_0 is SerializationError,
{
    let mut es: Vec<(K, V)> = Vec::new();
    let mut i: usize = 0;
    while i < rows.len()
        invariant
            i <= rows.len(),
            read_entries(rows@.subrange(0, i as int), es@),
            forall|j: int|
                0 <= j < i ==> K::decoding_of(#[trigger] rows@[j].0@) is Some
                    && V::decoding_of(rows@[j].1@) is Some,
        decreases rows.len() - i,
    {
        let k = match K::decode(rows[i].0.as_slice()) {
            Ok(k) => k,
            Err(e) => {
                return Err(Error::SerializationError(e));
            },
        };
        let v = match V::decode(rows[i].1.as_slice()) {
            Ok(v) => v,
            Err(e) => {
                return Err(Error::SerializationError(e));
            },
        };
        es.push((k, v));
        i = i + 1;
        assert(rows@.subrange(0, i as int).drop_last() == rows@.subrange(0, i - 1));
    }
    assert(rows@.subrange(0, i as int) == rows@);
    Ok(es)
}

} // verus!
