use vstd::prelude::*;
use std::marker::PhantomData;
use rusqlite::Transaction;
use crate::codec::{decode_entries, decode_found, decode_keys, Codec};
use crate::engine::{
    commit_transaction, kv_all, kv_contains, kv_count, kv_delete, kv_delete_all, kv_insert,
    kv_base, kv_lookup, kv_rows, kv_settled, kv_upsert, rollback_transaction, InsertError,
};
use crate::err::Error;
use crate::model::{entries_decode, keys_decode, lists_entries, lists_keys, Rows};

verus! {

/// An open transaction on a single-table store whose keys are `K` and values
/// are `V`. Committing or rolling back consumes it.
#[verifier::reject_recursive_types(K)]
#[verifier::reject_recursive_types(V)]
pub struct Tx<'a, K, V> {
    tx: Transaction<'a>,
    _phantom: PhantomData<(K, V)>,
}

impl<'a, K: Codec, V: Codec> Tx<'a, K, V> {
    /// The stored entries as this transaction sees them: encoded key to
    /// encoded value.
    pub closed spec fn entries(&self) -> Rows {
        kv_rows(self.tx)
    }

    /// The committed entries of the store when this transaction began.
    pub closed spec fn base(&self) -> Rows {
        kv_base(self.tx)
    }

    /// The committed entries of the store once this transaction has ended:
    /// what a commit or a rollback leaves.
    pub closed spec fn settled(&self) -> Rows {
        kv_settled(self.tx)
    }

    pub(crate) fn new(tx: Transaction<'a>) -> (r: Tx<'a, K, V>)
        ensures
            r.entries() == kv_rows(tx),
            r.base() == kv_base(tx),
            r.settled() == kv_settled(tx),
    {
        Tx { tx, _phantom: PhantomData }
    }

    /// Discards every write of this transaction; the same as `rollback`.
    pub fn cancel(self) -> (r: Result<(), Error>)
        ensures
            r is Ok ==> self.settled() == self.base(),
            r is Err ==> r->Err_0 is SqliteError,
    {
        self.rollback()
    }

    /// Discards every write of this transaction: the store keeps the
    /// entries committed before it began.
    pub fn rollback(self) -> (r: Result<(), Error>)
        ensures
            r is Ok ==> self.settled() == self.base(),
            r is Err ==> r->Err_0 is SqliteError,
    {
        match rollback_transaction(self.tx) {
            Ok(()) => Ok(()),
            Err(e) => Err(Error::SqliteError(e)),
        }
    }

    /// Makes every write of this transaction durable: the store's committed
    /// entries become those this transaction sees.
    pub fn commit(self) -> (r: Result<(), Error>)
        ensures
            r is Ok ==> self.settled() == self.entries(),
            r is Err ==> r->Err_0 is SqliteError,
    {
        match commit_transaction(self.tx) {
            Ok(()) => Ok(()),
            Err(e) => Err(Error::SqliteError(e)),
        }
    }

    /// Whether an entry is stored under `key`.
    pub fn contains(&self, key: K) -> (r: Result<bool, Error>)
        ensures
            r is Ok ==> r->Ok_0 == self.entries().contains_key(K::encoding_of(key@)),
            r is Err ==> r->Err_0 is SqliteError,
    {
        let key_bytes = match key.encode() {
            Ok(b) => b,
            Err(e) => {
                return Err(Error::SerializationError(e));
            },
        };
        match kv_contains(&self.tx, &key_bytes) {
            Ok(b) => Ok(b),
            Err(e) => Err(Error::SqliteError(e)),
        }
    }

    /// The value stored under `key`, if any. Stored bytes that do not decode
    /// are a `SerializationError`, not absence.
    pub fn get(&self, key: K) -> (r: Result<Option<V>, Error>)
        ensures
            ({
                let kb = K::encoding_of(key@);
                let m = self.entries();
                &&& r is Ok && r->Ok_0 is None ==> !m.contains_key(kb)
                &&& r is Ok && r->Ok_0 is Some ==> m.contains_key(kb) && V::decoding_of(m[kb])
                    == Some(r->Ok_0->Some_0@)
                &&& r is Err ==> r->Err_0 is SqliteError || (r->Err_0 is SerializationError
                    && m.contains_key(kb) && V::decoding_of(m[kb]) is None)
                &&& !(r is Err && r->Err_0 is SqliteError) ==> (m.contains_key(kb)
                    && V::decoding_of(m[kb]) is None <==> r is Err)
            }),
    {
        let key_bytes = match key.encode() {
            Ok(b) => b,
            Err(e) => {
                return Err(Error::SerializationError(e));
            },
        };
        match kv_lookup(&self.tx, &key_bytes) {
            Ok(found) => decode_found(found),
            Err(e) => Err(Error::SqliteError(e)),
        }
    }

    /// Stores `val` under `key`, replacing any value already there.
    pub fn set(&mut self, key: K, val: V) -> (r: Result<(), Error>)
        ensures
            final(self).base() == old(self).base() && final(self).settled() == old(
                self,
            ).settled(),
            r is Ok ==> final(self).entries() == old(self).entries().insert(
                K::encoding_of(key@),
                V::encoding_of(val@),
            ),
            r is Err ==> r->Err_0 is SqliteError,
    {
        let key_bytes = match key.encode() {
            Ok(b) => b,
            Err(e) => {
                return Err(Error::SerializationError(e));
            },
        };
        let val_bytes = match val.encode() {
            Ok(b) => b,
            Err(e) => {
                return Err(Error::SerializationError(e));
            },
        };
        match kv_upsert(&mut self.tx, &key_bytes, &val_bytes) {
            Ok(_) => Ok(()),
            Err(e) => Err(Error::SqliteError(e)),
        }
    }

    /// Stores `val` under `key` only if no entry is there; otherwise fails
    /// with `KeyAlreadyExists` and leaves the entry as it was.
    pub fn put(&mut self, key: K, val: V) -> (r: Result<(), Error>)
        ensures
            final(self).base() == old(self).base() && final(self).settled() == old(
                self,
            ).settled(),
            ({
                let kb = K::encoding_of(key@);
                &&& r is Ok ==> !old(self).entries().contains_key(kb) && final(self).entries()
                    == old(self).entries().insert(kb, V::encoding_of(val@))
                &&& r is Err && r->Err_0 is KeyAlreadyExists ==> old(self).entries().contains_key(
                    kb,
                ) && final(self).entries() == old(self).entries()
                &&& old(self).entries().contains_key(kb) ==> r is Err
                &&& r is Err ==> r->Err_0 is KeyAlreadyExists || r->Err_0 is SqliteError
            }),
    {
        let key_bytes = match key.encode() {
            Ok(b) => b,
            Err(e) => {
                return Err(Error::SerializationError(e));
            },
        };
        let val_bytes = match val.encode() {
            Ok(b) => b,
            Err(e) => {
                return Err(Error::SerializationError(e));
            },
        };
        match kv_insert(&mut self.tx, &key_bytes, &val_bytes) {
            Ok(()) => Ok(()),
            Err(InsertError::Conflict) => Err(Error::KeyAlreadyExists),
            Err(InsertError::Engine(e)) => Err(Error::SqliteError(e)),
        }
    }

    /// Removes the entry under `key`; an absent key is no error.
    pub fn del(&mut self, key: K) -> (r: Result<(), Error>)
        ensures
            final(self).base() == old(self).base() && final(self).settled() == old(
                self,
            ).settled(),
            r is Ok ==> final(self).entries() == old(self).entries().remove(K::encoding_of(key@)),
            r is Err ==> r->Err_0 is SqliteError,
    {
        let key_bytes = match key.encode() {
            Ok(b) => b,
            Err(e) => {
                return Err(Error::SerializationError(e));
            },
        };
        match kv_delete(&mut self.tx, &key_bytes) {
            Ok(_) => Ok(()),
            Err(e) => Err(Error::SqliteError(e)),
        }
    }

    /// Every stored key, once each, in no promised order. A key that does
    /// not decode makes the whole call fail.
    pub fn keys(&self) -> (r: Result<Vec<K>, Error>)
        ensures
            r is Ok ==> lists_keys(r->Ok_0@, self.entries()),
            r is Err ==> r->Err_0 is SqliteError || (r->Err_0 is SerializationError
                && !keys_decode::<K>(self.entries())),
            keys_decode::<K>(self.entries()) ==> !(r is Err && r->Err_0 is SerializationError),
    {
        let rows = match kv_all(&self.tx) {
            Ok(rows) => rows,
            Err(e) => {
                return Err(Error::SqliteError(e));
            },
        };
        let r = decode_keys(&rows);
        proof {
            if r is Err {
                let i = choose|i: int|
                    0 <= i < rows.len() && !(K::decoding_of(#[trigger] rows@[i].0@) is Some);
                assert(self.entries().contains_key(rows@[i].0@));
            } else {
                assert(lists_keys(r->Ok_0@, self.entries()));
            }
        }
        r
    }

    /// Every stored entry, once each, in no promised order. An entry that
    /// does not decode makes the whole call fail.
    pub fn scan(&self) -> (r: Result<Vec<(K, V)>, Error>)
        ensures
            r is Ok ==> lists_entries(r->Ok_0@, self.entries()),
            r is Err ==> r->Err_0 is SqliteError || (r->Err_0 is SerializationError
                && !entries_decode::<K, V>(self.entries())),
            entries_decode::<K, V>(self.entries()) ==> !(r is Err && r->Err_0
                is SerializationError),
    {
        let rows = match kv_all(&self.tx) {
            Ok(rows) => rows,
            Err(e) => {
                return Err(Error::SqliteError(e));
            },
        };
        let r = decode_entries(&rows);
        proof {
            if r is Err {
                let i = choose|i: int|
                    0 <= i < rows.len() && !(K::decoding_of(#[trigger] rows@[i].0@) is Some
                        && V::decoding_of(rows@[i].1@) is Some);
                assert(self.entries().contains_key(rows@[i].0@));
            } else {
                assert(lists_entries(r->Ok_0@, self.entries()));
            }
        }
        r
    }

    /// Removes every entry.
    pub fn clear(&mut self) -> (r: Result<(), Error>)
        ensures
            final(self).base() == old(self).base() && final(self).settled() == old(
                self,
            ).settled(),
            r is Ok ==> final(self).entries() == Rows::empty(),
            r is Err ==> r->Err_0 is SqliteError,
    {
        match kv_delete_all(&mut self.tx) {
            Ok(_) => Ok(()),
            Err(e) => Err(Error::SqliteError(e)),
        }
    }

    /// The number of stored entries.
    pub fn count(&self) -> (r: Result<usize, Error>)
        ensures
            r is Ok ==> r->Ok_0 == self.entries().len(),
            r is Err ==> r->Err_0 is SqliteError,
    {
        match kv_count(&self.tx) {
            Ok(n) => Ok(n as usize),
            Err(e) => Err(Error::SqliteError(e)),
        }
    }
}

} // verus!
