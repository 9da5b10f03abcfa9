use vstd::prelude::*;
use postcard::Error as PostcardError;
use rusqlite::Error as EngineError;

verus! {

#[verifier::external_type_specification]
#[verifier::external_body]
pub struct ExEngineError(EngineError);

/// The errors that the store reports.
#[derive(Debug)]
pub enum Error {
    /// A failure reported by SQLite that is not otherwise classified.
    SqliteError(EngineError),
    /// A key or value that could not be encoded or decoded.
    SerializationError(PostcardError),
    /// An insert-only write met a key that is already present.
    KeyAlreadyExists,
    /// The file's `kv_store` table has another shape than this kind of store
    /// uses: it was made by the other kind of store, or by something else.
    IncompatibleSchema,
    /// A collection was requested with types other than those it was
    /// registered with.
    TypeMismatch {
        expected_key: String,
        expected_value: String,
        got_key: String,
        got_value: String,
    },
}

} // verus!
