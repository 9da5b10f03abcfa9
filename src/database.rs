use vstd::prelude::*;
use rusqlite::Connection;
use rusqlite::Error as EngineError;
use rusqlite::Transaction;
use crate::codec::Codec;
use crate::collection::Collection;
use crate::engine::{
    begin_exclusive, committed_scoped, registered, scoped_base, scoped_rows, scoped_settled, lookup_signatures, open_connection, register_signatures, run_script,
    table_columns,
};
use crate::model::ScopedRows;
use crate::schema::shared_table_shape;
use crate::err::Error;
use crate::registry::check_signatures;

verus! {

/// A store that holds many named collections, each registered with the
/// signatures of its key and value types.
pub struct Database {
    conn: Connection,
}

impl Database {
    /// The committed rows of the shared table, keyed by collection and
    /// encoded key.
    pub closed spec fn committed(&self) -> ScopedRows {
        committed_scoped(self.conn)
    }

    /// The registered collections: name to key and value signatures.
    pub closed spec fn registry(&self) -> Map<Seq<char>, (Seq<char>, Seq<char>)> {
        registered(self.conn)
    }

    /// Begins an engine transaction that holds the store exclusively.
    pub(crate) fn begin_transaction(&mut self) -> (r: Result<Transaction<'_>, EngineError>)
        ensures
            r is Ok ==> scoped_rows(r->Ok_0) == old(self).committed() && scoped_base(r->Ok_0)
                == old(self).committed() && final(self).committed() == scoped_settled(r->Ok_0),
            r is Err ==> final(self).committed() == old(self).committed(),
            final(self).registry() == old(self).registry(),
    {
        begin_exclusive(&mut self.conn)
    }

    /// Opens or creates the store at `db_path`, creating the registry and the
    /// shared table if they are missing. A file whose `kv_store` has another
    /// shape is refused with `IncompatibleSchema`.
    pub fn new(db_path: &str) -> (r: Result<Database, Error>)
        ensures
            r is Err ==> r->Err_0 is SqliteError || r->Err_0 is IncompatibleSchema,
    {
        let conn = match open_connection(db_path) {
            Ok(c) => c,
            Err(e) => {
                return Err(Error::SqliteError(e));
            },
        };
        match run_script(
            &conn,
            "
            CREATE TABLE IF NOT EXISTS collection_meta (
                name TEXT PRIMARY KEY,
                key_type TEXT NOT NULL,
                value_type TEXT NOT NULL
            );
            CREATE TABLE IF NOT EXISTS kv_store (
                collection TEXT,
                key BLOB,
                value BLOB NOT NULL,
                PRIMARY KEY(collection, key)
            );
            ",
        ) {
            Ok(()) => {},
            Err(e) => {
                return Err(Error::SqliteError(e));
            },
        }
        match table_columns(&conn, "kv_store") {
            Ok(cols) => {
                if shared_table_shape(&cols) {
                    Ok(Database { conn })
                } else {
                    Err(Error::IncompatibleSchema)
                }
            },
            Err(e) => Err(Error::SqliteError(e)),
        }
    }

    /// The collection `name` with key type `K` and value type `V`. A new
    /// name is registered with their signatures; a known one must have been
    /// registered with the same, else `TypeMismatch` reports both pairs.
    pub fn get_collection<K: Codec, V: Codec>(&mut self, name: &str) -> (r: Result<
        Collection<K, V>,
        Error,
    >)
        ensures
            final(self).committed() == old(self).committed(),
            ({
                let reg = old(self).registry();
                let sig = (K::signature(), V::signature());
                &&& r is Ok ==> r->Ok_0.name() == name@ && final(self).registry() == reg.insert(
                    name@,
                    sig,
                ) && (reg.contains_key(name@) ==> reg[name@] == sig)
                &&& r is Err ==> r->Err_0 is SqliteError || r->Err_0 is TypeMismatch
                &&& r is Err && r->Err_0 is TypeMismatch ==> reg.contains_key(name@) && reg[name@]
                    != sig && final(self).registry() == reg && r->Err_0->expected_key@ == sig.0
                    && r->Err_0->expected_value@ == sig.1 && r->Err_0->got_key@ == reg[name@].0
                    && r->Err_0->got_value@ == reg[name@].1
                &&& reg.contains_key(name@) && reg[name@] != sig ==> r is Err
            }),
    {
        let expected_key = K::type_signature();
        let expected_value = V::type_signature();
        let stored = match lookup_signatures(&self.conn, name) {
            Ok(s) => s,
            Err(e) => {
                return Err(Error::SqliteError(e));
            },
        };
        let register = match check_signatures(stored, expected_key.clone(), expected_value.clone()) {
            Ok(b) => b,
            Err(e) => {
                return Err(e);
            },
        };
        if register {
            match register_signatures(
                &mut self.conn,
                name,
                expected_key.as_str(),
                expected_value.as_str(),
            ) {
                Ok(_) => {},
                Err(e) => {
                    return Err(Error::SqliteError(e));
                },
            }
        }
        Ok(Collection::new(name.to_string()))
    }
}

} // verus!
