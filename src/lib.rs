//! A typed, transactional key-value store over an embedded SQLite database.
//!
//! Keys and values go through a deterministic codec (`codec`) into byte
//! strings that SQLite stores; every transaction operation states its effect
//! on a map model of the stored rows.
//!
//! Each store has a model of its committed rows. A transaction starts from
//! them; what is committed once it ends is its "settled" rows, which `commit`
//! sets to what the transaction sees and `rollback` to what was committed
//! when it began. A transaction that is only dropped is rolled back by
//! SQLite, but no contract can say so: verified callers end transactions with
//! `commit`, `rollback` or `cancel`, and call the `&mut self` methods of a
//! transaction in the form `Tx::put(&mut tx, k, v)`.
mod codec;
mod collection;
mod collection_tx;
mod database;
mod db;
mod engine;
mod err;
pub mod laws;
pub mod model;
mod registry;
mod schema;
mod tx;

pub use codec::{decode_entries, decode_found, decode_keys, Codec};
pub use collection::Collection;
pub use collection_tx::CollectionTx;
pub use database::Database;
pub use db::Db;
pub use err::Error;
pub use registry::check_signatures;
pub use schema::{shared_table_shape, single_table_shape};
pub use tx::Tx;
