use vstd::prelude::*;
use rusqlite::Connection;
use rusqlite::Error as EngineError;
use rusqlite::Transaction;
use crate::model::{lists, scope, without_scope, Rows, ScopedRows};

verus! {

#[verifier::external_type_specification]
#[verifier::external_body]
pub struct ExConnection(Connection);

#[verifier::external_type_specification]
#[verifier::external_body]
pub struct ExTransaction<'conn>(Transaction<'conn>);

/// The committed rows of a single-table `kv_store (key BLOB PRIMARY KEY,
/// value BLOB NOT NULL)`, key to value; no rows while the table is missing
/// or has another shape. The `kv_*` statements below run only on
/// connections that `Db::new` opened, and it refuses a file whose
/// `kv_store` has another shape.
pub uninterp spec fn committed_kv(c: Connection) -> Rows;

/// The rows of the single-table `kv_store` as this transaction sees them.
pub uninterp spec fn kv_rows(t: Transaction) -> Rows;

/// The committed rows of the single-table `kv_store` when this transaction
/// began.
pub uninterp spec fn kv_base(t: Transaction) -> Rows;

/// The committed rows of the single-table `kv_store` once this transaction
/// has ended and released its connection.
pub uninterp spec fn kv_settled(t: Transaction) -> Rows;

/// The committed rows of the shared `kv_store (collection TEXT, key BLOB,
/// value BLOB NOT NULL, PRIMARY KEY(collection, key))`, keyed by collection
/// and key; no rows while the table is missing or has another shape. The
/// `sc_*` statements below run only on connections that `Database::new`
/// opened, and it refuses a file whose `kv_store` has another shape.
pub uninterp spec fn committed_scoped(c: Connection) -> ScopedRows;

/// The committed rows of `collection_meta`: collection name to its key and
/// value signatures; no rows while the table is missing.
pub uninterp spec fn registered(c: Connection) -> Map<Seq<char>, (Seq<char>, Seq<char>)>;

/// The rows of the shared `kv_store` as this transaction sees them.
pub uninterp spec fn scoped_rows(t: Transaction) -> ScopedRows;

/// The committed rows of the shared `kv_store` when this transaction began.
pub uninterp spec fn scoped_base(t: Transaction) -> ScopedRows;

/// The committed rows of the shared `kv_store` once this transaction has
/// ended and released its connection.
pub uninterp spec fn scoped_settled(t: Transaction) -> ScopedRows;

/// How an insert-only write can fail.
pub enum InsertError {
    /// The key is already present: SQLite's primary-key constraint refused it.
    Conflict,
    /// Any other failure of SQLite.
    Engine(EngineError),
}

/// Relies on rusqlite's Connection::open: opens or creates the database file.
#[verifier::external_body]
pub fn open_connection(path: &str) -> (r: Result<Connection, EngineError>) {
    Connection::open(path)
}

/// Relies on rusqlite's Connection::execute_batch: runs a script of
/// statements.
#[verifier::external_body]
pub fn run_script(c: &Connection, sql: &str) -> (r: Result<(), EngineError>) {
    c.execute_batch(sql)
}

/// Relies on rusqlite's Connection::transaction (`BEGIN DEFERRED`): the new
/// transaction holds the connection exclusively, starts from the committed
/// rows, and what is committed once it has ended is its settled rows. A
/// failed `BEGIN` leaves the committed rows as they were. The statements of
/// this library run in a transaction never touch `collection_meta`.
#[verifier::external_body]
pub fn begin_exclusive(c: &mut Connection) -> (r: Result<Transaction<'_>, EngineError>)
    ensures
        r is Ok ==> kv_rows(r->Ok_0) == committed_kv(*old(c)) && kv_base(r->Ok_0)
            == committed_kv(*old(c)) && committed_kv(*final(c)) == kv_settled(r->Ok_0),
        r is Ok ==> scoped_rows(r->Ok_0) == committed_scoped(*old(c)) && scoped_base(r->Ok_0)
            == committed_scoped(*old(c)) && committed_scoped(*final(c)) == scoped_settled(
            r->Ok_0,
        ),
        r is Err ==> committed_kv(*final(c)) == committed_kv(*old(c)) && committed_scoped(
            *final(c),
        ) == committed_scoped(*old(c)),
        registered(*final(c)) == registered(*old(c)),
{
    c.transaction()
}

/// Relies on rusqlite's Statement::query_map over SQLite's
/// `pragma_table_info`: each column of `table` as (name, declared type,
/// position in the primary key, 0 when outside it), in column order.
#[verifier::external_body]
pub fn table_columns(c: &Connection, table: &str) -> (r: Result<
    Vec<(String, String, i64)>,
    EngineError,
>) {
    let mut stmt = c.prepare("SELECT name, type, pk FROM pragma_table_info(?) ORDER BY cid")?;
    let rows = stmt.query_map([table], |row| Ok((row.get(0)?, row.get(1)?, row.get(2)?)))?;
    rows.collect()
}

/// Relies on rusqlite's Statement::query and Row::get: the key and value
/// signatures registered under `name`, if any.
#[verifier::external_body]
pub fn lookup_signatures(c: &Connection, name: &str) -> (r: Result<
    Option<(String, String)>,
    EngineError,
>)
    ensures
        r is Ok ==> (r->Ok_0 is Some <==> registered(*c).contains_key(name@)),
        r is Ok && r->Ok_0 is Some ==> registered(*c)[name@] == (
            r->Ok_0->Some_0.0@,
            r->Ok_0->Some_0.1@,
        ),
{
    let mut stmt = c.prepare("SELECT key_type, value_type FROM collection_meta WHERE name = ?")?;
    let mut rows = stmt.query([name])?;
    rows.next()?.map(|row| Ok((row.get(0)?, row.get(1)?))).transpose()
}

/// Relies on rusqlite's Connection::execute with `INSERT`, outside any
/// transaction: records the signatures of a new collection, and leaves
/// `kv_store` as it was.
#[verifier::external_body]
pub fn register_signatures(
    c: &mut Connection,
    name: &str,
    key_type: &str,
    value_type: &str,
) -> (r: Result<usize, EngineError>)
    ensures
        committed_scoped(*final(c)) == committed_scoped(*old(c)),
        committed_kv(*final(c)) == committed_kv(*old(c)),
        r is Ok ==> registered(*final(c)) == registered(*old(c)).insert(
            name@,
            (key_type@, value_type@),
        ),
        r is Err ==> registered(*final(c)) == registered(*old(c)),
{
    c.execute(
        "INSERT INTO collection_meta (name, key_type, value_type) VALUES (?, ?, ?)",
        [name, key_type, value_type],
    )
}

/// Relies on rusqlite's Transaction::commit (`COMMIT`): on success the rows
/// this transaction sees become the committed rows.
#[verifier::external_body]
pub fn commit_transaction(t: Transaction) -> (r: Result<(), EngineError>)
    ensures
        r is Ok ==> kv_settled(t) == kv_rows(t) && scoped_settled(t) == scoped_rows(t),
{
    t.commit()
}

/// Relies on rusqlite's Transaction::rollback (`ROLLBACK`): on success the
/// committed rows are those from before this transaction began.
#[verifier::external_body]
pub fn rollback_transaction(t: Transaction) -> (r: Result<(), EngineError>)
    ensures
        r is Ok ==> kv_settled(t) == kv_base(t) && scoped_settled(t) == scoped_base(t),
{
    t.rollback()
}

/// Relies on rusqlite's Statement::exists: whether a row with this key is
/// stored.
#[verifier::external_body]
pub fn kv_contains(t: &Transaction, key: &Vec<u8>) -> (r: Result<bool, EngineError>)
    ensures
        r is Ok ==> r->Ok_0 == kv_rows(*t).contains_key(key@),
{
    t.prepare("SELECT 1 FROM kv_store WHERE key = ?")?.exists([key])
}

/// Relies on rusqlite's Statement::query and Row::get: the value stored
/// under this key, if any.
#[verifier::external_body]
pub fn kv_lookup(t: &Transaction, key: &Vec<u8>) -> (r: Result<Option<Vec<u8>>, EngineError>)
    ensures
        r is Ok ==> (r->Ok_0 is Some <==> kv_rows(*t).contains_key(key@)),
        r is Ok && r->Ok_0 is Some ==> r->Ok_0->Some_0@ == kv_rows(*t)[key@],
{
    let mut stmt = t.prepare("SELECT value FROM kv_store WHERE key = ?")?;
    let mut rows = stmt.query([key])?;
    rows.next()?.map(|row| row.get(0)).transpose()
}

/// Relies on rusqlite's Connection::execute with `INSERT OR REPLACE`: the
/// key now maps to the value, whether or not it was present.
#[verifier::external_body]
pub fn kv_upsert(t: &mut Transaction, key: &Vec<u8>, val: &Vec<u8>) -> (r: Result<
    usize,
    EngineError,
>)
    ensures
        kv_base(*final(t)) == kv_base(*old(t)) && kv_settled(*final(t)) == kv_settled(*old(t)),
        r is Ok ==> kv_rows(*final(t)) == kv_rows(*old(t)).insert(key@, val@),
{
    t.execute("INSERT OR REPLACE INTO kv_store (key, value) VALUES (?, ?)", (key, val))
}

/// Relies on rusqlite's Connection::execute with a plain `INSERT`: it adds
/// the row when the key is absent; when it is present SQLite reports
/// SQLITE_CONSTRAINT_PRIMARYKEY and the statement changes nothing.
#[verifier::external_body]
pub fn kv_insert(t: &mut Transaction, key: &Vec<u8>, val: &Vec<u8>) -> (r: Result<
    (),
    InsertError,
>)
    ensures
        kv_base(*final(t)) == kv_base(*old(t)) && kv_settled(*final(t)) == kv_settled(*old(t)),
        r is Ok ==> !kv_rows(*old(t)).contains_key(key@) && kv_rows(*final(t)) == kv_rows(
            *old(t),
        ).insert(key@, val@),
        r is Err && r->Err_0 is Conflict ==> kv_rows(*old(t)).contains_key(key@) && kv_rows(
            *final(t),
        ) == kv_rows(*old(t)),
{
    match t.execute("INSERT INTO kv_store (key, value) VALUES (?, ?)", (key, val)) {
        Ok(_) => Ok(()),
        Err(EngineError::SqliteFailure(e, _)) if e.extended_code
            == rusqlite::ffi::SQLITE_CONSTRAINT_PRIMARYKEY => Err(InsertError::Conflict),
        Err(e) => Err(InsertError::Engine(e)),
    }
}

/// Relies on rusqlite's Connection::execute with `DELETE ... WHERE key = ?`.
#[verifier::external_body]
pub fn kv_delete(t: &mut Transaction, key: &Vec<u8>) -> (r: Result<usize, EngineError>)
    ensures
        kv_base(*final(t)) == kv_base(*old(t)) && kv_settled(*final(t)) == kv_settled(*old(t)),
        r is Ok ==> kv_rows(*final(t)) == kv_rows(*old(t)).remove(key@),
{
    t.execute("DELETE FROM kv_store WHERE key = ?", [key])
}

/// Relies on rusqlite's Connection::execute with an unconditional `DELETE`.
#[verifier::external_body]
pub fn kv_delete_all(t: &mut Transaction) -> (r: Result<usize, EngineError>)
    ensures
        kv_base(*final(t)) == kv_base(*old(t)) && kv_settled(*final(t)) == kv_settled(*old(t)),
        r is Ok ==> kv_rows(*final(t)) == Rows::empty(),
{
    t.execute("DELETE FROM kv_store", [])
}

/// Relies on rusqlite's Statement::query_map: every stored row once, as
/// (key, value).
#[verifier::external_body]
pub fn kv_all(t: &Transaction) -> (r: Result<Vec<(Vec<u8>, Vec<u8>)>, EngineError>)
    ensures
        r is Ok ==> lists(r->Ok_0@, kv_rows(*t)),
{
    let mut stmt = t.prepare("SELECT key, value FROM kv_store")?;
    let rows = stmt.query_map([], |row| Ok((row.get(0)?, row.get(1)?)))?;
    rows.collect()
}

/// Relies on rusqlite's Connection::query_row with `COUNT(*)`, read as an
/// isize (an out-of-range count is an error of rusqlite's): the number of
/// stored rows.
#[verifier::external_body]
pub fn kv_count(t: &Transaction) -> (r: Result<isize, EngineError>)
    ensures
        r is Ok ==> kv_rows(*t).dom().finite() && r->Ok_0 as int == kv_rows(*t).len(),
{
    t.query_row("SELECT COUNT(*) FROM kv_store", [], |row| row.get(0))
}

/// Relies on rusqlite's Statement::exists: whether collection `c` holds a
/// row with this key.
#[verifier::external_body]
pub fn sc_contains(t: &Transaction, c: &String, key: &Vec<u8>) -> (r: Result<bool, EngineError>)
    ensures
        r is Ok ==> r->Ok_0 == scoped_rows(*t).contains_key((c@, key@)),
{
    t.prepare("SELECT 1 FROM kv_store WHERE collection = ? AND key = ?")?.exists((c, key))
}

/// Relies on rusqlite's Statement::query and Row::get: the value that
/// collection `c` holds under this key, if any.
#[verifier::external_body]
pub fn sc_lookup(t: &Transaction, c: &String, key: &Vec<u8>) -> (r: Result<
    Option<Vec<u8>>,
    EngineError,
>)
    ensures
        r is Ok ==> (r->Ok_0 is Some <==> scoped_rows(*t).contains_key((c@, key@))),
        r is Ok && r->Ok_0 is Some ==> r->Ok_0->Some_0@ == scoped_rows(*t)[(c@, key@)],
{
    let mut stmt = t.prepare("SELECT value FROM kv_store WHERE collection = ? AND key = ?")?;
    let mut rows = stmt.query((c, key))?;
    rows.next()?.map(|row| row.get(0)).transpose()
}

/// Relies on rusqlite's Connection::execute with `INSERT OR REPLACE`: the
/// key of collection `c` now maps to the value.
#[verifier::external_body]
pub fn sc_upsert(t: &mut Transaction, c: &String, key: &Vec<u8>, val: &Vec<u8>) -> (r: Result<
    usize,
    EngineError,
>)
    ensures
        scoped_base(*final(t)) == scoped_base(*old(t)) && scoped_settled(*final(t)) == scoped_settled(
            *old(t),
        ),
        r is Ok ==> scoped_rows(*final(t)) == scoped_rows(*old(t)).insert((c@, key@), val@),
{
    t.execute(
        "INSERT OR REPLACE INTO kv_store (collection, key, value) VALUES (?, ?, ?)",
        (c, key, val),
    )
}

/// Relies on rusqlite's Connection::execute with a plain `INSERT`: it adds
/// the row when collection `c` lacks the key; otherwise SQLite reports
/// SQLITE_CONSTRAINT_PRIMARYKEY and the statement changes nothing.
#[verifier::external_body]
pub fn sc_insert(t: &mut Transaction, c: &String, key: &Vec<u8>, val: &Vec<u8>) -> (r: Result<
    (),
    InsertError,
>)
    ensures
        scoped_base(*final(t)) == scoped_base(*old(t)) && scoped_settled(*final(t)) == scoped_settled(
            *old(t),
        ),
        r is Ok ==> !scoped_rows(*old(t)).contains_key((c@, key@)) && scoped_rows(*final(t))
            == scoped_rows(*old(t)).insert((c@, key@), val@),
        r is Err && r->Err_0 is Conflict ==> scoped_rows(*old(t)).contains_key((c@, key@))
            && scoped_rows(*final(t)) == scoped_rows(*old(t)),
{
    let sql = "INSERT INTO kv_store (collection, key, value) VALUES (?, ?, ?)";
    match t.execute(sql, (c, key, val)) {
        Ok(_) => Ok(()),
        Err(EngineError::SqliteFailure(e, _)) if e.extended_code
            == rusqlite::ffi::SQLITE_CONSTRAINT_PRIMARYKEY => Err(InsertError::Conflict),
        Err(e) => Err(InsertError::Engine(e)),
    }
}

/// Relies on rusqlite's Connection::execute with `DELETE ... WHERE
/// collection = ? AND key = ?`.
#[verifier::external_body]
pub fn sc_delete(t: &mut Transaction, c: &String, key: &Vec<u8>) -> (r: Result<
    usize,
    EngineError,
>)
    ensures
        scoped_base(*final(t)) == scoped_base(*old(t)) && scoped_settled(*final(t)) == scoped_settled(
            *old(t),
        ),
        r is Ok ==> scoped_rows(*final(t)) == scoped_rows(*old(t)).remove((c@, key@)),
{
    t.execute("DELETE FROM kv_store WHERE collection = ? AND key = ?", (c, key))
}

/// Relies on rusqlite's Connection::execute with `DELETE ... WHERE
/// collection = ?`: the rows of the other collections stay.
#[verifier::external_body]
pub fn sc_delete_all(t: &mut Transaction, c: &String) -> (r: Result<usize, EngineError>)
    ensures
        scoped_base(*final(t)) == scoped_base(*old(t)) && scoped_settled(*final(t)) == scoped_settled(
            *old(t),
        ),
        r is Ok ==> scoped_rows(*final(t)) == without_scope(scoped_rows(*old(t)), c@),
{
    t.execute("DELETE FROM kv_store WHERE collection = ?", [c])
}

/// Relies on rusqlite's Statement::query_map: every row of collection `c`
/// once, as (key, value).
#[verifier::external_body]
pub fn sc_all(t: &Transaction, c: &String) -> (r: Result<Vec<(Vec<u8>, Vec<u8>)>, EngineError>)
    ensures
        r is Ok ==> lists(r->Ok_0@, scope(scoped_rows(*t), c@)),
{
    let mut stmt = t.prepare("SELECT key, value FROM kv_store WHERE collection = ?")?;
    let rows = stmt.query_map([c], |row| Ok((row.get(0)?, row.get(1)?)))?;
    rows.collect()
}

/// Relies on rusqlite's Connection::query_row with `COUNT(*)`, read as an
/// isize (an out-of-range count is an error of rusqlite's): the number of
/// rows of collection `c`.
#[verifier::external_body]
pub fn sc_count(t: &Transaction, c: &String) -> (r: Result<isize, EngineError>)
    ensures
        r is Ok ==> scope(scoped_rows(*t), c@).dom().finite() && r->Ok_0 as int == scope(
            scoped_rows(*t),
            c@,
        ).len(),
{
    t.query_row("SELECT COUNT(*) FROM kv_store WHERE collection = ?", [c], |row| row.get(0))
}

} // verus!
