use vstd::prelude::*;
use std::marker::PhantomData;
use rusqlite::Transaction;
use crate::codec::{decode_entries, decode_found, decode_keys, Codec};
use crate::engine::{
    commit_transaction, rollback_transaction, sc_all, sc_contains, sc_count, sc_delete,
    sc_delete_all, sc_insert, sc_lookup, sc_upsert, scoped_base, scoped_rows, scoped_settled,
    InsertError,
};
use crate::err::Error;
use crate::model::{
    entries_decode, keys_decode, lists_entries, lists_keys, scope, without_scope, Rows, ScopedRows,
};

verus! {

/// An open transaction on one collection of a shared store; its keys are
/// `K` and values are `V`. Committing or rolling back consumes it.
#[verifier::reject_recursive_types(K)]
#[verifier::reject_recursive_types(V)]
pub struct CollectionTx<'a, K, V> {
    tx: Transaction<'a>,
    collection: String,
    _phantom: PhantomData<(K, V)>,
}

impl<'a, K: Codec, V: Codec> CollectionTx<'a, K, V> {
    /// Every row of the shared table as this transaction sees it.
    pub closed spec fn rows(&self) -> ScopedRows {
        scoped_rows(self.tx)
    }

    /// The name of the collection this transaction works on.
    pub closed spec fn name(&self) -> Seq<char> {
        self.collection@
    }

    /// The entries of this collection: encoded key to encoded value.
    pub open spec fn entries(&self) -> Rows {
        scope(self.rows(), self.name())
    }

    /// The committed rows of the shared table when this transaction began.
    pub closed spec fn base(&self) -> ScopedRows {
        scoped_base(self.tx)
    }

    /// The committed rows of the shared table once this transaction has
    /// ended: what a commit or a rollback leaves.
    pub closed spec fn settled(&self) -> ScopedRows {
        scoped_settled(self.tx)
    }

    pub(crate) fn new(tx: Transaction<'a>, name: String) -> (r: CollectionTx<'a, K, V>)
        ensures
            r.rows() == scoped_rows(tx),
            r.base() == scoped_base(tx),
            r.settled() == scoped_settled(tx),
            r.name() == name@,
    {
        CollectionTx { tx, collection: name, _phantom: PhantomData }
    }

    /// Discards every write of this transaction; the same as `rollback`.
    pub fn cancel(self) -> (r: Result<(), Error>)
        ensures
            r is Ok ==> self.settled() == self.base(),
            r is Err ==> r->Err_0 is SqliteError,
    {
        self.rollback()
    }

    /// Discards every write of this transaction: the store keeps the rows
    /// committed before it began.
    pub fn rollback(self) -> (r: Result<(), Error>)
        ensures
            r is Ok ==> self.settled() == self.base(),
            r is Err ==> r->Err_0 is SqliteError,
    {
        match rollback_transaction(self.tx) {
            Ok(()) => Ok(()),
            Err(e) => Err(Error::SqliteError(e)),
        }
    }

    /// Makes every write of this transaction durable: the committed rows of
    /// the shared table become those this transaction sees.
    pub fn commit(self) -> (r: Result<(), Error>)
        ensures
            r is Ok ==> self.settled() == self.rows(),
            r is Err ==> r->Err_0 is SqliteError,
    {
        match commit_transaction(self.tx) {
            Ok(()) => Ok(()),
            Err(e) => Err(Error::SqliteError(e)),
        }
    }

    /// Whether an entry is stored under `key`.
    pub fn contains(&self, key: K) -> (r: Result<bool, Error>)
        ensures
            r is Ok ==> r->Ok_0 == self.entries().contains_key(K::encoding_of(key@)),
            r is Err ==> r->Err_0 is SqliteError,
    {
        let key_bytes = match key.encode() {
            Ok(b) => b,
            Err(e) => {
                return Err(Error::SerializationError(e));
            },
        };
        match sc_contains(&self.tx, &self.collection, &key_bytes) {
            Ok(b) => Ok(b),
            Err(e) => Err(Error::SqliteError(e)),
        }
    }

    /// The value stored under `key`, if any. Stored bytes that do not decode
    /// are a `SerializationError`, not absence.
    pub fn get(&self, key: K) -> (r: Result<Option<V>, Error>)
        ensures
            ({
                let kb = K::encoding_of(key@);
                let m = self.entries();
                &&& r is Ok && r->Ok_0 is None ==> !m.contains_key(kb)
                &&& r is Ok && r->Ok_0 is Some ==> m.contains_key(kb) && V::decoding_of(m[kb])
                    == Some(r->Ok_0->Some_0@)
                &&& r is Err ==> r->Err_0 is SqliteError || (r->Err_0 is SerializationError
                    && m.contains_key(kb) && V::decoding_of(m[kb]) is None)
                &&& !(r is Err && r->Err_0 is SqliteError) ==> (m.contains_key(kb)
                    && V::decoding_of(m[kb]) is None <==> r is Err)
            }),
    {
        let key_bytes = match key.encode() {
            Ok(b) => b,
            Err(e) => {
                return Err(Error::SerializationError(e));
            },
        };
        match sc_lookup(&self.tx, &self.collection, &key_bytes) {
            Ok(found) => decode_found(found),
            Err(e) => Err(Error::SqliteError(e)),
        }
    }

    /// Stores `val` under `key`, replacing any value already there.
    pub fn set(&mut self, key: K, val: V) -> (r: Result<(), Error>)
        ensures
            final(self).base() == old(self).base() && final(self).settled() == old(
                self,
            ).settled(),
            final(self).name() == old(self).name(),
            r is Ok ==> final(self).rows() == old(self).rows().insert(
                (old(self).name(), K::encoding_of(key@)),
                V::encoding_of(val@),
            ),
            r is Err ==> r->Err_0 is SqliteError,
    {
        let key_bytes = match key.encode() {
            Ok(b) => b,
            Err(e) => {
                return Err(Error::SerializationError(e));
            },
        };
        let val_bytes = match val.encode() {
            Ok(b) => b,
            Err(e) => {
                return Err(Error::SerializationError(e));
            },
        };
        match sc_upsert(&mut self.tx, &self.collection, &key_bytes, &val_bytes) {
            Ok(_) => Ok(()),
            Err(e) => Err(Error::SqliteError(e)),
        }
    }

    /// Stores `val` under `key` only if no entry is there; otherwise fails
    /// with `KeyAlreadyExists` and leaves the entry as it was.
    pub fn put(&mut self, key: K, val: V) -> (r: Result<(), Error>)
        ensures
            final(self).base() == old(self).base() && final(self).settled() == old(
                self,
            ).settled(),
            ({
                let kb = K::encoding_of(key@);
                &&& final(self).name() == old(self).name()
                &&& r is Ok ==> !old(self).entries().contains_key(kb) && final(self).rows()
                    == old(self).rows().insert((old(self).name(), kb), V::encoding_of(val@))
                &&& r is Err && r->Err_0 is KeyAlreadyExists ==> old(self).entries().contains_key(
                    kb,
                ) && final(self).rows() == old(self).rows()
                &&& old(self).entries().contains_key(kb) ==> r is Err
                &&& r is Err ==> r->Err_0 is KeyAlreadyExists || r->Err_0 is SqliteError
            }),
    {
        let key_bytes = match key.encode() {
            Ok(b) => b,
            Err(e) => {
                return Err(Error::SerializationError(e));
            },
        };
        let val_bytes = match val.encode() {
            Ok(b) => b,
            Err(e) => {
                return Err(Error::SerializationError(e));
            },
        };
        match sc_insert(&mut self.tx, &self.collection, &key_bytes, &val_bytes) {
            Ok(()) => Ok(()),
            Err(InsertError::Conflict) => Err(Error::KeyAlreadyExists),
            Err(InsertError::Engine(e)) => Err(Error::SqliteError(e)),
        }
    }

    /// Removes the entry under `key`; an absent key is no error.
    pub fn del(&mut self, key: K) -> (r: Result<(), Error>)
        ensures
            final(self).base() == old(self).base() && final(self).settled() == old(
                self,
            ).settled(),
            final(self).name() == old(self).name(),
            r is Ok ==> final(self).rows() == old(self).rows().remove(
                (old(self).name(), K::encoding_of(key@)),
            ),
            r is Err ==> r->Err_0 is SqliteError,
    {
        let key_bytes = match key.encode() {
            Ok(b) => b,
            Err(e) => {
                return Err(Error::SerializationError(e));
            },
        };
        match sc_delete(&mut self.tx, &self.collection, &key_bytes) {
            Ok(_) => Ok(()),
            Err(e) => Err(Error::SqliteError(e)),
        }
    }

    /// Every stored key, once each, in no promised order. A key that does
    /// not decode makes the whole call fail.
    pub fn keys(&self) -> (r: Result<Vec<K>, Error>)
        ensures
            r is Ok ==> lists_keys(r->Ok_0@, self.entries()),
            r is Err ==> r->Err_0 is SqliteError || (r->Err_0 is SerializationError
                && !keys_decode::<K>(self.entries())),
            keys_decode::<K>(self.entries()) ==> !(r is Err && r->Err_0 is SerializationError),
    {
        let rows = match sc_all(&self.tx, &self.collection) {
            Ok(rows) => rows,
            Err(e) => {
                return Err(Error::SqliteError(e));
            },
        };
        let r = decode_keys(&rows);
        proof {
            if r is Err {
                let i = choose|i: int|
                    0 <= i < rows.len() && !(K::decoding_of(#[trigger] rows@[i].0@) is Some);
                assert(self.entries().contains_key(rows@[i].0@));
            } else {
                assert(lists_keys(r->Ok_0@, self.entries()));
            }
        }
        r
    }

    /// Every stored entry, once each, in no promised order. An entry that
    /// does not decode makes the whole call fail.
    pub fn scan(&self) -> (r: Result<Vec<(K, V)>, Error>)
        ensures
            r is Ok ==> lists_entries(r->Ok_0@, self.entries()),
            r is Err ==> r->Err_0 is SqliteError || (r->Err_0 is SerializationError
                && !entries_decode::<K, V>(self.entries())),
            entries_decode::<K, V>(self.entries()) ==> !(r is Err && r->Err_0
                is SerializationError),
    {
        let rows = match sc_all(&self.tx, &self.collection) {
            Ok(rows) => rows,
            Err(e) => {
                return Err(Error::SqliteError(e));
            },
        };
        let r = decode_entries(&rows);
        proof {
            if r is Err {
                let i = choose|i: int|
                    0 <= i < rows.len() && !(K::decoding_of(#[trigger] rows@[i].0@) is Some
                        && V::decoding_of(rows@[i].1@) is Some);
                assert(self.entries().contains_key(rows@[i].0@));
            } else {
                assert(lists_entries(r->Ok_0@, self.entries()));
            }
        }
        r
    }

    /// Removes every entry of this collection; the others keep theirs.
    pub fn clear(&mut self) -> (r: Result<(), Error>)
        ensures
            final(self).base() == old(self).base() && final(self).settled() == old(
                self,
            ).settled(),
            final(self).name() == old(self).name(),
            r is Ok ==> final(self).rows() == without_scope(old(self).rows(), old(self).name()),
            r is Err ==> r->Err_0 is SqliteError,
    {
        match sc_delete_all(&mut self.tx, &self.collection) {
            Ok(_) => Ok(()),
            Err(e) => Err(Error::SqliteError(e)),
        }
    }

    /// The number of stored entries.
    pub fn count(&self) -> (r: Result<usize, Error>)
        ensures
            r is Ok ==> r->Ok_0 == self.entries().len(),
            r is Err ==> r->Err_0 is SqliteError,
    {
        match sc_count(&self.tx, &self.collection) {
            Ok(n) => Ok(n as usize),
            Err(e) => Err(Error::SqliteError(e)),
        }
    }
}

} // verus!
