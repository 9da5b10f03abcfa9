use vstd::prelude::*;

verus! {

/// A column as SQLite describes it: (name, declared type, position in the
/// primary key, 0 when outside it).
pub type Column = (String, String, i64);

/// The column `c` is named `name`, declared `ty`, at primary-key position
/// `pk`.
pub open spec fn column_is(c: Column, name: Seq<char>, ty: Seq<char>, pk: i64) -> bool {
    c.0@ == name && c.1@ == ty && c.2 == pk
}

/// The shape of the single-table `kv_store`: `key BLOB PRIMARY KEY, value
/// BLOB`.
pub open spec fn is_single_table(cols: Seq<Column>) -> bool {
    &&& cols.len() == 2
    &&& column_is(cols[0], "key"@, "BLOB"@, 1)
    &&& column_is(cols[1], "value"@, "BLOB"@, 0)
}

/// The shape of the shared `kv_store`: `collection TEXT, key BLOB, value
/// BLOB` with the primary key (collection, key).
pub open spec fn is_shared_table(cols: Seq<Column>) -> bool {
    &&& cols.len() == 3
    &&& column_is(cols[0], "collection"@, "TEXT"@, 1)
    &&& column_is(cols[1], "key"@, "BLOB"@, 2)
    &&& column_is(cols[2], "value"@, "BLOB"@, 0)
}

fn check_column(c: &Column, name: &str, ty: &str, pk: i64) -> (r: bool)
    ensures
        r == column_is(*c, name@, ty@, pk),
{
    c.0 == name.to_string() && c.1 == ty.to_string() && c.2 == pk
}

/// Whether the columns are those of the single-table `kv_store`.
pub fn single_table_shape(cols: &Vec<Column>) -> (r: bool)
    ensures
        r == is_single_table(cols@),
{
    cols.len() == 2 && check_column(&cols[0], "key", "BLOB", 1) && check_column(
        &cols[1],
        "value",
        "BLOB",
        0,
    )
}

/// Whether the columns are those of the shared `kv_store`.
pub fn shared_table_shape(cols: &Vec<Column>) -> (r: bool)
    ensures
        r == is_shared_table(cols@),
{
    cols.len() == 3 && check_column(&cols[0], "collection", "TEXT", 1) && check_column(
        &cols[1],
        "key",
        "BLOB",
        2,
    ) && check_column(&cols[2], "value", "BLOB", 0)
}

} // verus!
