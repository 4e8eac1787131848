//! The store: an optional open connection, installed once by `init`, and the
//! typed operations on the rows it reaches.
use vstd::prelude::*;
use diesel::sqlite::SqliteConnection;
use crate::engine::{
    delete_row, dir_exists, execute_statement, fetch_row, kv_table_ready, lock_exclusively,
    open_database, open_in_memory, set_busy_timeout, read_schema, replace_row, table_rows, KV_SQL, KV_TABLE_DEF,
};
use crate::record::opt_str_view;
use crate::record::{KeyValue, KeyValueView};

verus! {

/// The database file created under the root directory.
pub const DB_NAME: &'static str = "kv.db";

/// How long a statement waits for another connection's lock, in milliseconds.
pub const BUSY_TIMEOUT_MS: u32 = 2000;

/// The engine message when `kv_table` exists with another definition.
pub const SCHEMA_MISMATCH: &'static str = "kv_table does not have the expected definition";

/// Why an operation of the store failed.
#[derive(Clone, Debug, PartialEq, Eq)]
pub enum KvError {
    /// An operation came before a successful `init`.
    Uninitialized,
    /// The root directory is missing at `init`, or no row has the key at `get`.
    NotFound,
    /// The database failed; the message is the engine's.
    Engine(String),
    /// The lock around a shared store was poisoned by a panic.
    LockPoisoned,
}

/// A key-value store that is either uninitialized or holds one open database.
pub struct KVStore {
    database: Option<SqliteConnection>,
}

impl KVStore {
    /// A store's database, when it has one, owns its file and has the
    /// expected table.
    pub closed spec fn wf(&self) -> bool {
        self.database matches Some(c) ==> kv_table_ready(c)
    }

    /// Whether `init` has installed a database.
    pub closed spec fn is_initialized(&self) -> bool {
        self.database is Some
    }

    /// The rows of an initialized store, by key.
    pub closed spec fn rows(&self) -> Map<Seq<char>, KeyValueView> {
        table_rows(self.database->Some_0)
    }

    /// The record stored under `key`, if any.
    pub open spec fn row_at(&self, key: Seq<char>) -> Option<KeyValueView> {
        if self.rows().contains_key(key) {
            Some(self.rows()[key])
        } else {
            None
        }
    }

    /// The string stored under `key`: absent when the store is uninitialized,
    /// the key has no row, or its row holds no string.
    pub open spec fn str_at(&self, key: Seq<char>) -> Option<Seq<char>> {
        if self.is_initialized() && self.row_at(key) is Some {
            self.row_at(key)->Some_0.str_value
        } else {
            None
        }
    }

    /// The integer stored under `key`, as `str_at` is for strings.
    pub open spec fn int_at(&self, key: Seq<char>) -> Option<i64> {
        if self.is_initialized() && self.row_at(key) is Some {
            self.row_at(key)->Some_0.int_value
        } else {
            None
        }
    }

    /// The float bits stored under `key`, as `str_at` is for strings.
    pub open spec fn float_at(&self, key: Seq<char>) -> Option<u64> {
        if self.is_initialized() && self.row_at(key) is Some {
            self.row_at(key)->Some_0.float_value
        } else {
            None
        }
    }

    /// The boolean stored under `key`, as `str_at` is for strings.
    pub open spec fn bool_at(&self, key: Seq<char>) -> Option<bool> {
        if self.is_initialized() && self.row_at(key) is Some {
            self.row_at(key)->Some_0.bool_value
        } else {
            None
        }
    }

    /// A store with no database: every operation but `init` and
    /// `init_in_memory` fails with `Uninitialized`.
    pub fn new() -> (s: KVStore)
        ensures
            s.wf(),
            !s.is_initialized(),
    {
        KVStore { database: None }
    }

    /// Opens the database under the directory `root` and installs it,
    /// replacing any earlier one.
    ///
    /// `NotFound` when `root` is not a directory; `Engine` when the database
    /// cannot be opened or prepared (see `install`); on failure the store is
    /// unchanged. The installed connection keeps its file locked, so a file
    /// that another connection holds, this store's own included, cannot be
    /// opened again while it is held: after waiting `BUSY_TIMEOUT_MS` this
    /// fails with `Engine`, and the store keeps its earlier connection.
    pub fn init(&mut self, root: &str) -> (r: Result<(), KvError>)
        requires
            old(self).wf(),
        ensures
            final(self).wf(),
            r is Ok ==> final(self).is_initialized(),
            r is Err ==> *final(self) == *old(self),
            r is Err ==> r->Err_0 is NotFound || r->Err_0 is Engine,
    {
        let root_exists = dir_exists(root);
        if !root_exists {
            return KVStore::init_outcome(false, Ok(()), Ok(()));
        }
        match open_database(root, DB_NAME) {
            Err(e) => KVStore::init_outcome(true, Err(e), Ok(())),
            Ok(conn) => {
                let prepared = self.install(conn);
                KVStore::init_outcome(true, Ok(()), prepared)
            },
        }
    }

    /// Opens a new, empty database that lives only in this process and
    /// installs it, replacing any earlier one. Any failure gives `Engine` and
    /// leaves the store unchanged.
    pub fn init_in_memory(&mut self) -> (r: Result<(), KvError>)
        requires
            old(self).wf(),
        ensures
            final(self).wf(),
            r is Ok ==> final(self).is_initialized(),
            r is Err ==> *final(self) == *old(self) && r->Err_0 is Engine,
    {
        match open_in_memory() {
            Err(e) => Err(KvError::Engine(e)),
            Ok(conn) => self.install(conn),
        }
    }

    /// What `init` returns from its steps: whether the root is a directory,
    /// whether the database opened, and what preparing it gave.
    pub fn init_outcome(
        root_exists: bool,
        opened: Result<(), String>,
        prepared: Result<(), KvError>,
    ) -> (r: Result<(), KvError>)
        ensures
            !root_exists ==> r == Err::<(), KvError>(KvError::NotFound),
            root_exists ==> (opened matches Err(e) ==> r == Err::<(), KvError>(KvError::Engine(e))),
            root_exists && opened is Ok ==> r == prepared,
    {
        if !root_exists {
            return Err(KvError::NotFound);
        }
        match opened {
            Err(e) => Err(KvError::Engine(e)),
            Ok(()) => prepared,
        }
    }

    /// What preparing a database makes of the definition read back for
    /// `kv_table`: success exactly when it is `KV_TABLE_DEF`.
    pub fn schema_outcome(definition: Result<Option<String>, String>) -> (r: Result<(), KvError>)
        ensures
            r is Ok <==> (definition matches Ok(Some(d)) && d@ == KV_TABLE_DEF@),
            definition matches Err(e) ==> r == Err::<(), KvError>(KvError::Engine(e)),
            definition is Ok && r is Err ==> (r matches Err(KvError::Engine(m)) && m@
                == SCHEMA_MISMATCH@),
    {
        match definition {
            Err(e) => Err(KvError::Engine(e)),
            Ok(Some(d)) => {
                if d == KV_TABLE_DEF.to_owned() {
                    Ok(())
                } else {
                    Err(KvError::Engine(SCHEMA_MISMATCH.to_owned()))
                }
            },
            Ok(None) => Err(KvError::Engine(SCHEMA_MISMATCH.to_owned())),
        }
    }

    /// Prepares `conn`, which the library has just opened, and installs it,
    /// replacing any earlier connection: sets the busy timeout, applies
    /// `KV_SQL`, takes the file's exclusive lock with foreign keys off, and
    /// checks that `kv_table` has exactly the expected definition. Any
    /// failure gives `Engine` and leaves the store unchanged.
    pub(crate) fn install(&mut self, conn: SqliteConnection) -> (r: Result<(), KvError>)
        requires
            old(self).wf(),
        ensures
            final(self).wf(),
            r is Ok ==> final(self).is_initialized(),
            r is Err ==> *final(self) == *old(self) && r->Err_0 is Engine,
    {
        let mut conn = conn;
        match set_busy_timeout(&mut conn, BUSY_TIMEOUT_MS) {
            Ok(()) => {},
            Err(e) => return Err(KvError::Engine(e)),
        }
        match execute_statement(&mut conn, KV_SQL) {
            Ok(()) => {},
            Err(e) => return Err(KvError::Engine(e)),
        }
        match lock_exclusively(&mut conn) {
            Ok(()) => {},
            Err(e) => return Err(KvError::Engine(e)),
        }
        let definition = read_schema(&conn);
        match KVStore::schema_outcome(definition) {
            Ok(()) => {},
            Err(e) => return Err(e),
        }
        self.database = Some(conn);
        Ok(())
    }

    /// What `get` returns for the outcome of looking a key up in the table:
    /// the row when there is one, `NotFound` when there is none, and `Engine`
    /// with the engine's message when the lookup failed.
    pub fn lookup_outcome(fetched: Result<Option<KeyValue>, String>) -> (r: Result<KeyValue, KvError>)
        ensures
            fetched matches Ok(Some(item)) ==> r == Ok::<KeyValue, KvError>(item),
            fetched matches Ok(None) ==> r == Err::<KeyValue, KvError>(KvError::NotFound),
            fetched matches Err(e) ==> r == Err::<KeyValue, KvError>(KvError::Engine(e)),
    {
        match fetched {
            Ok(Some(item)) => Ok(item),
            Ok(None) => Err(KvError::NotFound),
            Err(e) => Err(KvError::Engine(e)),
        }
    }


    /// Writes `item` under its key, replacing any row there whole.
    pub fn set(&mut self, item: KeyValue) -> (r: Result<(), KvError>)
        requires
            old(self).wf(),
        ensures
            final(self).wf(),
            !old(self).is_initialized() ==> r == Err::<(), KvError>(KvError::Uninitialized)
                && *final(self) == *old(self),
            old(self).is_initialized() ==> final(self).is_initialized(),
            old(self).is_initialized() && r is Ok ==> final(self).rows() == old(self).rows().insert(
                item@.key,
                item@,
            ),
            old(self).is_initialized() && r is Err ==> r->Err_0 is Engine && final(self).rows()
                == old(self).rows(),
    {
        match &mut self.database {
            None => Err(KvError::Uninitialized),
            Some(conn) => match replace_row(conn, &item) {
                Ok(()) => Ok(()),
                Err(e) => Err(KvError::Engine(e)),
            },
        }
    }

    /// Reads the record stored under `key`.
    pub fn get(&self, key: &str) -> (r: Result<KeyValue, KvError>)
        requires
            self.wf(),
        ensures
            !self.is_initialized() ==> r == Err::<KeyValue, KvError>(KvError::Uninitialized),
            self.is_initialized() && r is Ok ==> self.row_at(key@) == Some(r->Ok_0@)
                && r->Ok_0@.key == key@,
            self.is_initialized() && r is Err ==> r->Err_0 is NotFound || r->Err_0 is Engine,
            self.is_initialized() && r == Err::<KeyValue, KvError>(KvError::NotFound) ==> self.row_at(
                key@,
            ) is None,
            self.is_initialized() && self.row_at(key@) is None ==> r is Err,
    {
        match &self.database {
            None => Err(KvError::Uninitialized),
            Some(conn) => KVStore::lookup_outcome(fetch_row(conn, key)),
        }
    }

    /// Deletes the row under `key`; a key with no row is no error.
    pub fn remove(&mut self, key: &str) -> (r: Result<(), KvError>)
        requires
            old(self).wf(),
        ensures
            final(self).wf(),
            !old(self).is_initialized() ==> r == Err::<(), KvError>(KvError::Uninitialized)
                && *final(self) == *old(self),
            old(self).is_initialized() ==> final(self).is_initialized(),
            old(self).is_initialized() && r is Ok ==> final(self).rows() == old(self).rows().remove(
                key@,
            ),
            old(self).is_initialized() && r is Err ==> r->Err_0 is Engine && final(self).rows()
                == old(self).rows(),
    {
        match &mut self.database {
            None => Err(KvError::Uninitialized),
            Some(conn) => match delete_row(conn, key) {
                Ok(()) => Ok(()),
                Err(e) => Err(KvError::Engine(e)),
            },
        }
    }

    /// Stores the string `value` under `key` as a record holding nothing else, replacing
    /// the row there. Best effort: a failure is not reported as an error, and
    /// the result says only whether the row was written.
    pub fn set_str(&mut self, key: &str, value: String) -> (stored: bool)
        requires
            old(self).wf(),
        ensures
            final(self).wf(),
            !old(self).is_initialized() ==> !stored && *final(self) == *old(self),
            old(self).is_initialized() && !stored ==> final(self).rows() == old(self).rows(),
            old(self).is_initialized() ==> final(self).is_initialized(),
            stored ==> final(self).rows() == old(self).rows().insert(
                key@,
                KeyValueView::of_str(key@, value@),
            ),
    {
        self.set(KeyValue::from_str_value(key, value)).is_ok()
    }

    /// Stores the boolean `value` under `key` as a record holding nothing else, replacing
    /// the row there. Best effort: a failure is not reported as an error, and
    /// the result says only whether the row was written.
    pub fn set_bool(&mut self, key: &str, value: bool) -> (stored: bool)
        requires
            old(self).wf(),
        ensures
            final(self).wf(),
            !old(self).is_initialized() ==> !stored && *final(self) == *old(self),
            old(self).is_initialized() && !stored ==> final(self).rows() == old(self).rows(),
            old(self).is_initialized() ==> final(self).is_initialized(),
            stored ==> final(self).rows() == old(self).rows().insert(
                key@,
                KeyValueView::of_bool(key@, value),
            ),
    {
        self.set(KeyValue::from_bool_value(key, value)).is_ok()
    }

    /// Stores the integer `value` under `key` as a record holding nothing else, replacing
    /// the row there. Best effort: a failure is not reported as an error, and
    /// the result says only whether the row was written.
    pub fn set_int(&mut self, key: &str, value: i64) -> (stored: bool)
        requires
            old(self).wf(),
        ensures
            final(self).wf(),
            !old(self).is_initialized() ==> !stored && *final(self) == *old(self),
            old(self).is_initialized() && !stored ==> final(self).rows() == old(self).rows(),
            old(self).is_initialized() ==> final(self).is_initialized(),
            stored ==> final(self).rows() == old(self).rows().insert(
                key@,
                KeyValueView::of_int(key@, value),
            ),
    {
        self.set(KeyValue::from_int_value(key, value)).is_ok()
    }

    /// Stores the float whose bit pattern is `value` under `key` as a record holding nothing else, replacing
    /// the row there. Best effort: a failure is not reported as an error, and
    /// the result says only whether the row was written.
    pub fn set_float(&mut self, key: &str, value: u64) -> (stored: bool)
        requires
            old(self).wf(),
        ensures
            final(self).wf(),
            !old(self).is_initialized() ==> !stored && *final(self) == *old(self),
            old(self).is_initialized() && !stored ==> final(self).rows() == old(self).rows(),
            old(self).is_initialized() ==> final(self).is_initialized(),
            stored ==> final(self).rows() == old(self).rows().insert(
                key@,
                KeyValueView::of_float(key@, value),
            ),
    {
        self.set(KeyValue::from_float_bits(key, value)).is_ok()
    }

    /// What `get_str` makes of the outcome of `get`: the record's string,
    /// or `None` on any error.
    pub fn str_outcome(outcome: Result<KeyValue, KvError>) -> (r: Option<String>)
        ensures
            outcome matches Ok(item) ==> r == item.str_value,
            outcome is Err ==> r is None,
    {
        match outcome {
            Ok(item) => item.str_value,
            Err(_) => None,
        }
    }

    /// The string stored under `key`; any failure, a missing key, or a row
    /// without a string gives `None`.
    pub fn get_str(&self, key: &str) -> (r: Option<String>)
        requires
            self.wf(),
        ensures
            r is Some ==> self.str_at(key@) == Some(r->Some_0@),
            self.str_at(key@) is None ==> r is None,
    {
        KVStore::str_outcome(self.get(key))
    }

    /// What `get_int` makes of the outcome of `get`: the record's integer,
    /// or `None` on any error.
    pub fn int_outcome(outcome: Result<KeyValue, KvError>) -> (r: Option<i64>)
        ensures
            outcome matches Ok(item) ==> r == item.int_value,
            outcome is Err ==> r is None,
    {
        match outcome {
            Ok(item) => item.int_value,
            Err(_) => None,
        }
    }

    /// The integer stored under `key`; any failure, a missing key, or a row
    /// without a integer gives `None`.
    pub fn get_int(&self, key: &str) -> (r: Option<i64>)
        requires
            self.wf(),
        ensures
            r is Some ==> self.int_at(key@) == Some(r->Some_0),
            self.int_at(key@) is None ==> r is None,
    {
        KVStore::int_outcome(self.get(key))
    }

    /// What `get_float` makes of the outcome of `get`: the record's float bits,
    /// or `None` on any error.
    pub fn float_outcome(outcome: Result<KeyValue, KvError>) -> (r: Option<u64>)
        ensures
            outcome matches Ok(item) ==> r == item.float_value,
            outcome is Err ==> r is None,
    {
        match outcome {
            Ok(item) => item.float_value,
            Err(_) => None,
        }
    }

    /// The float bits stored under `key`; any failure, a missing key, or a row
    /// without a float bits gives `None`.
    pub fn get_float(&self, key: &str) -> (r: Option<u64>)
        requires
            self.wf(),
        ensures
            r is Some ==> self.float_at(key@) == Some(r->Some_0),
            self.float_at(key@) is None ==> r is None,
    {
        KVStore::float_outcome(self.get(key))
    }

    /// What `get_bool` makes of the outcome of `get`: the record's boolean,
    /// or `None` on any error.
    pub fn bool_outcome(outcome: Result<KeyValue, KvError>) -> (r: Option<bool>)
        ensures
            outcome matches Ok(item) ==> r == item.bool_value,
            outcome is Err ==> r is None,
    {
        match outcome {
            Ok(item) => item.bool_value,
            Err(_) => None,
        }
    }

    /// The boolean stored under `key`; any failure, a missing key, or a row
    /// without a boolean gives `None`.
    pub fn get_bool(&self, key: &str) -> (r: Option<bool>)
        requires
            self.wf(),
        ensures
            r is Some ==> self.bool_at(key@) == Some(r->Some_0),
            self.bool_at(key@) is None ==> r is None,
    {
        KVStore::bool_outcome(self.get(key))
    }
}

} // verus!
