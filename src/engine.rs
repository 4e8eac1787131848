//! The embedded database that holds the rows: a SQLite file reached through
//! diesel. Each function here makes one outside call and is trusted.
//!
//! The rows are modelled as belonging to one connection. That is true only
//! while the connection holds the file's exclusive lock (so that no other
//! connection, in this process or another, can read or change the file),
//! enforces no foreign keys (so that no cascade reaches the table), and sees
//! a table that is exactly the one `KV_TABLE_DEF` describes (no other column
//! types, collations, indexes or triggers, in the main or the temporary
//! schema). The wrappers that read or write rows ask for all of it, through
//! `kv_table_ready`. The connections are only those the library opens itself:
//! no function takes one from outside.
use vstd::prelude::*;
use diesel::connection::SimpleConnection;
use diesel::sqlite::SqliteConnection;
use diesel::{Connection, OptionalExtension, RunQueryDsl};
use diesel::sql_types::{BigInt, Bool, Nullable, Text};
use crate::record::{opt_str_view, KeyValue, KeyValueView};

verus! {

/// The schema statement; it leaves an existing table as it is. A float is kept
/// as its 64-bit pattern in an integer column, so it reads back exactly.
pub const KV_SQL: &'static str = "CREATE TABLE IF NOT EXISTS kv_table (key TEXT NOT NULL PRIMARY KEY, str_value TEXT, int_value BIGINT, float_value BIGINT, bool_value BOOLEAN)";

/// The definition SQLite records for the table that `KV_SQL` creates.
pub const KV_TABLE_DEF: &'static str = "CREATE TABLE kv_table (key TEXT NOT NULL PRIMARY KEY, str_value TEXT, int_value BIGINT, float_value BIGINT, bool_value BOOLEAN)";

#[verifier::external_type_specification]
#[verifier::external_body]
pub struct ExSqliteConnection(SqliteConnection);

/// The rows of `kv_table` behind a connection, by key, each as `fetch_row`
/// decodes it (a row that does not decode stands for some record that
/// reading fails on).
pub uninterp spec fn table_rows(c: SqliteConnection) -> Map<Seq<char>, KeyValueView>;

/// Whether the connection holds the exclusive lock on its database file and
/// has foreign-key enforcement off.
pub uninterp spec fn owns_database(c: SqliteConnection) -> bool;

/// The SQL text of every object, in the temporary and then the main schema,
/// whose table name is `kv_table` in any letter case, joined by `;`, as the
/// schema records it; `None` when there is none.
pub uninterp spec fn kv_schema(c: SqliteConnection) -> Option<Seq<char>>;

/// The connection owns its file and its `kv_table` is the expected one.
pub open spec fn kv_table_ready(c: SqliteConnection) -> bool {
    owns_database(c) && kv_schema(c) == Some(KV_TABLE_DEF@)
}

/// Relies on `std::path::Path::is_dir`; what is on disk decides the answer.
#[verifier::external_body]
pub(crate) fn dir_exists(root: &str) -> (r: bool) {
    std::path::Path::new(root).is_dir()
}

/// Relies on diesel's `SqliteConnection::establish`, which opens (creating if
/// absent) the database file `name` under the directory `root`. What the file
/// already holds is not known.
#[verifier::external_body]
pub(crate) fn open_database(root: &str, name: &str) -> (r: Result<SqliteConnection, String>) {
    SqliteConnection::establish(&format!("{}/{}", root, name)).map_err(|e| format!("{:?}", e))
}

/// Relies on diesel's `SqliteConnection::establish` on `:memory:`, which
/// opens a new, empty, private database.
#[verifier::external_body]
pub(crate) fn open_in_memory() -> (r: Result<SqliteConnection, String>) {
    SqliteConnection::establish(":memory:").map_err(|e| format!("{:?}", e))
}

/// Relies on diesel's `SimpleConnection::batch_execute`, running
/// `PRAGMA busy_timeout`: a statement that finds the file locked by another
/// connection waits up to `ms` milliseconds before it fails.
/// Nothing is claimed of the connection afterwards.
#[verifier::external_body]
pub(crate) fn set_busy_timeout(conn: &mut SqliteConnection, ms: u32) -> (r: Result<(), String>) {
    conn.batch_execute(&format!("PRAGMA busy_timeout = {}", ms)).map_err(|e| format!("{:?}", e))
}

/// Relies on diesel's `Connection::execute`, which runs SQL text.
/// Nothing is claimed of the connection afterwards.
#[verifier::external_body]
pub(crate) fn execute_statement(conn: &mut SqliteConnection, sql: &str) -> (r: Result<(), String>) {
    conn.execute(sql).map(|_| ()).map_err(|e| format!("{:?}", e))
}

/// Relies on diesel's `SimpleConnection::batch_execute`, running
/// `PRAGMA foreign_keys = OFF`, `PRAGMA locking_mode = EXCLUSIVE` and then an
/// exclusive transaction: in that mode SQLite keeps the lock it took until
/// the connection closes.
#[verifier::external_body]
pub(crate) fn lock_exclusively(conn: &mut SqliteConnection) -> (r: Result<(), String>)
    ensures
        r is Ok ==> owns_database(*final(conn)),
{
    conn.batch_execute("PRAGMA foreign_keys = OFF; PRAGMA locking_mode = EXCLUSIVE; BEGIN EXCLUSIVE; COMMIT;")
        .map_err(|e| format!("{:?}", e))
}

/// Relies on diesel's `sql(..).get_result`, selecting the `sql` column of
/// `sqlite_temp_master` and then `sqlite_master` for the objects whose table
/// name is `kv_table` under `NOCASE`, joined with `group_concat` (which skips
/// the NULL text of automatic indexes).
#[verifier::external_body]
pub(crate) fn read_schema(conn: &SqliteConnection) -> (r: Result<Option<String>, String>)
    requires
        owns_database(*conn),
    ensures
        r matches Ok(o) ==> kv_schema(*conn) == opt_str_view(o),
{
    diesel::dsl::sql::<Nullable<Text>>(
        "SELECT group_concat(sql, ';') FROM (SELECT sql FROM sqlite_temp_master WHERE tbl_name = 'kv_table' COLLATE NOCASE UNION ALL SELECT sql FROM sqlite_master WHERE tbl_name = 'kv_table' COLLATE NOCASE)",
    )
    .get_result::<Option<String>>(conn).map_err(|e| format!("{:?}", e))
}

/// Relies on diesel's `sql_query(..).bind(..).execute`, running one
/// `REPLACE INTO kv_table` statement: on success the row under the record's
/// key is the record, whole, and no other row changes; a statement that
/// fails changes nothing.
#[verifier::external_body]
pub(crate) fn replace_row(conn: &mut SqliteConnection, item: &KeyValue) -> (r: Result<(), String>)
    requires
        kv_table_ready(*old(conn)),
    ensures
        kv_table_ready(*final(conn)),
        r is Ok ==> table_rows(*final(conn)) == table_rows(*old(conn)).insert(item@.key, item@),
        r is Err ==> table_rows(*final(conn)) == table_rows(*old(conn)),
{
    diesel::sql_query(
        "REPLACE INTO kv_table (key, str_value, int_value, float_value, bool_value) VALUES (?, ?, ?, ?, ?)",
    )
    .bind::<Text, _>(&item.key)
    .bind::<Nullable<Text>, _>(&item.str_value)
    .bind::<Nullable<BigInt>, _>(item.int_value)
    .bind::<Nullable<BigInt>, _>(item.float_value.map(|b| b as i64))
    .bind::<Nullable<Bool>, _>(item.bool_value)
    .execute(&*conn).map(|_| ()).map_err(|e| format!("{:?}", e))
}

/// Relies on diesel's `sql(..).bind(..).get_result(..).optional()`, selecting
/// the row whose key equals `key` (binary comparison): `None` when there is none.
#[verifier::external_body]
pub(crate) fn fetch_row(conn: &SqliteConnection, key: &str) -> (r: Result<Option<KeyValue>, String>)
    requires
        kv_table_ready(*conn),
    ensures
        r matches Ok(Some(v)) ==> table_rows(*conn).contains_key(key@) && v@ == table_rows(*conn)[key@]
            && v@.key == key@,
        r matches Ok(None) ==> !table_rows(*conn).contains_key(key@),
{
    diesel::dsl::sql::<(Text, Nullable<Text>, Nullable<BigInt>, Nullable<BigInt>, Nullable<Bool>)>(
        "SELECT key, str_value, int_value, float_value, bool_value FROM kv_table WHERE key = ",
    )
    .bind::<Text, _>(key)
    .get_result::<(String, Option<String>, Option<i64>, Option<i64>, Option<bool>)>(conn)
    .optional().map_err(|e| format!("{:?}", e))
    .map(|o| o.map(|(key, s, i, f, b)| KeyValue { key, str_value: s, int_value: i, float_value: f.map(|x| x as u64), bool_value: b }))
}

/// Relies on diesel's `sql_query(..).bind(..).execute`, running one
/// `DELETE FROM kv_table WHERE key = ?` statement: on success no row has that
/// key and no other row changes (a missing key deletes nothing and is no
/// error); a statement that fails changes nothing.
#[verifier::external_body]
pub(crate) fn delete_row(conn: &mut SqliteConnection, key: &str) -> (r: Result<(), String>)
    requires
        kv_table_ready(*old(conn)),
    ensures
        kv_table_ready(*final(conn)),
        r is Ok ==> table_rows(*final(conn)) == table_rows(*old(conn)).remove(key@),
        r is Err ==> table_rows(*final(conn)) == table_rows(*old(conn)),
{
    diesel::sql_query("DELETE FROM kv_table WHERE key = ?")
        .bind::<Text, _>(key)
        .execute(&*conn).map(|_| ()).map_err(|e| format!("{:?}", e))
}

} // verus!
