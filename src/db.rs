use vstd::prelude::*;
use std::marker::PhantomData;
use rusqlite::Connection;
use crate::codec::Codec;
use crate::engine::{begin_exclusive, committed_kv, open_connection, run_script, table_columns};
use crate::model::Rows;
use crate::schema::single_table_shape;
use crate::err::Error;
use crate::tx::Tx;

verus! {

/// A single-table store whose keys are `K` and values are `V`.
#[verifier::reject_recursive_types(K)]
#[verifier::reject_recursive_types(V)]
pub struct Db<K, V> {
    conn: Connection,
    _phantom: PhantomData<(K, V)>,
}

impl<K: Codec, V: Codec> Db<K, V> {
    /// The committed entries of the store: encoded key to encoded value.
    pub closed spec fn committed(&self) -> Rows {
        committed_kv(self.conn)
    }

    /// Opens or creates the store at `db_path`, creating its table if it is
    /// missing. A file whose `kv_store` has another shape is refused with
    /// `IncompatibleSchema`.
    pub fn new(db_path: &str) -> (r: Result<Db<K, V>, Error>)
        ensures
            r is Err ==> r->Err_0 is SqliteError || r->Err_0 is IncompatibleSchema,
    {
        let conn = match open_connection(db_path) {
            Ok(c) => c,
            Err(e) => {
                return Err(Error::SqliteError(e));
            },
        };
        match run_script(
            &conn,
            "
            CREATE TABLE IF NOT EXISTS kv_store (key BLOB PRIMARY KEY, value BLOB NOT NULL);
            PRAGMA application_id = 1111199999;
            PRAGMA journal_mode = wal;
            PRAGMA synchronous = normal;
            PRAGMA temp_store = memory;
            PRAGMA auto_vacuum = incremental;
            PRAGMA mmap_size = 2147418112;
            ",
        ) {
            Ok(()) => {},
            Err(e) => {
                return Err(Error::SqliteError(e));
            },
        }
        match table_columns(&conn, "kv_store") {
            Ok(cols) => {
                if single_table_shape(&cols) {
                    Ok(Db { conn, _phantom: PhantomData })
                } else {
                    Err(Error::IncompatibleSchema)
                }
            },
            Err(e) => Err(Error::SqliteError(e)),
        }
    }

    /// Starts a transaction; it holds the store exclusively until it is
    /// committed, rolled back or dropped. It sees the committed entries, and
    /// what it settles is what the store holds committed afterwards.
    pub fn begin(&mut self) -> (r: Result<Tx<'_, K, V>, Error>)
        ensures
            r is Ok ==> r->Ok_0.entries() == old(self).committed() && r->Ok_0.base()
                == old(self).committed() && final(self).committed() == r->Ok_0.settled(),
            r is Err ==> r->Err_0 is SqliteError && final(self).committed() == old(
                self,
            ).committed(),
    {
        match begin_exclusive(&mut self.conn) {
            Ok(t) => Ok(Tx::new(t)),
            Err(e) => Err(Error::SqliteError(e)),
        }
    }
}

} // verus!
