//! Opening the application database and creating its schema.
//!
//! The database file's path is resolved by the shell and handed in.

use vstd::prelude::*;
use crate::sql::{connect, connect_readonly, execute_batch, prefixed_error};

verus! {

/// Puts the database in write-ahead-log mode.
pub const WAL_PRAGMA: &'static str = "PRAGMA journal_mode=WAL;";

/// The pragmas set when the schema is created.
pub const STARTUP_PRAGMAS: &'static str = "PRAGMA journal_mode=WAL;
         PRAGMA foreign_keys=ON;";

/// The key-value settings table.
pub const CREATE_SYS_CONFIG: &'static str = "CREATE TABLE IF NOT EXISTS sys_config (
            key     TEXT PRIMARY KEY,
            value   TEXT NOT NULL DEFAULT '',
            updated_at TEXT NOT NULL DEFAULT (datetime('now'))
        );";

/// The table of stored log entries.
pub const CREATE_LOG_ENTRIES: &'static str = "CREATE TABLE IF NOT EXISTS log_entries (
            id        INTEGER PRIMARY KEY AUTOINCREMENT,
            level     TEXT NOT NULL,
            target    TEXT DEFAULT '',
            message   TEXT NOT NULL,
            created_at TEXT NOT NULL DEFAULT (datetime('now', 'localtime'))
        );";

/// One step of setting up a connection: a statement batch, and the text
/// that an error of that step begins with.
pub type Step = (&'static str, &'static str);

/// The step run on every connection opened from the stored path: switching
/// to write-ahead logging.
pub fn open_steps() -> (steps: Vec<Step>)
    ensures
        steps@.len() == 1,
        steps@[0].0 == WAL_PRAGMA,
        steps@[0].1@ == "PRAGMA error: "@,
{
    vec![(WAL_PRAGMA, "PRAGMA error: ")]
}

/// The steps that create the schema, in the order they run: the startup
/// pragmas, then the `sys_config` table, then the `log_entries` table.
pub fn migration_steps() -> (steps: Vec<Step>)
    ensures
        steps@.len() == 3,
        steps@[0].0 == STARTUP_PRAGMAS,
        steps@[0].1@ == "Failed to set PRAGMAs: "@,
        steps@[1].0 == CREATE_SYS_CONFIG,
        steps@[1].1@ == "Failed to create sys_config: "@,
        steps@[2].0 == CREATE_LOG_ENTRIES,
        steps@[2].1@ == "Failed to create log_entries: "@,
{
    vec![
        (STARTUP_PRAGMAS, "Failed to set PRAGMAs: "),
        (CREATE_SYS_CONFIG, "Failed to create sys_config: "),
        (CREATE_LOG_ENTRIES, "Failed to create log_entries: "),
    ]
}

/// Runs the steps' statement batches on `conn` in order; the first that
/// fails stops the rest, and the error begins with that step's text.
pub fn run_steps(conn: &rusqlite::Connection, steps: &Vec<Step>) -> (r: Result<(), String>)
    ensures
        r matches Err(m) ==> exists|i: int| 0 <= i < steps@.len() && (#[trigger] steps@[i]).1@.is_prefix_of(m@),
{
    let mut i: usize = 0;
    while i < steps.len()
        invariant
            i <= steps@.len(),
        decreases steps@.len() - i,
    {
        let (sql, prefix) = steps[i];
        if let Err(e) = execute_batch(conn, sql) {
            let m = prefixed_error(prefix, &e);
            assert(steps@[i as int].1@.is_prefix_of(m@));
            return Err(m);
        }
        i = i + 1;
    }
    Ok(())
}

/// Sets up a connection as `open_steps` says, handing it back where that
/// succeeds.
fn with_open_steps(conn: rusqlite::Connection) -> (r: Result<rusqlite::Connection, String>)
    ensures
        r matches Err(m) ==> "PRAGMA error: "@.is_prefix_of(m@),
{
    let steps = open_steps();
    match run_steps(&conn, &steps) {
        Ok(()) => Ok(conn),
        Err(m) => Err(m),
    }
}

/// Opens the database at `path` for reading and writing (creating it where
/// it is missing) and runs `open_steps` on it.
fn open_wal(path: &str) -> (r: Result<rusqlite::Connection, String>)
    ensures
        r matches Err(m) ==> "Failed to open DB: "@.is_prefix_of(m@) || "PRAGMA error: "@.is_prefix_of(m@),
{
    match connect(path) {
        Ok(c) => with_open_steps(c),
        Err(e) => Err(prefixed_error("Failed to open DB: ", &e)),
    }
}

/// Opens the existing database at `path` for reading only and runs
/// `open_steps` on it.
fn open_wal_readonly(path: &str) -> (r: Result<rusqlite::Connection, String>)
    ensures
        r matches Err(m) ==> "Failed to open DB: "@.is_prefix_of(m@) || "PRAGMA error: "@.is_prefix_of(m@),
{
    match connect_readonly(path) {
        Ok(c) => with_open_steps(c),
        Err(e) => Err(prefixed_error("Failed to open DB: ", &e)),
    }
}

/// The answer of `open_readonly` and `open_readwrite` before any path is
/// stored.
pub const NOT_INITIALIZED: &'static str = "DB not initialized";

/// The database file's path, stored once when the application starts;
/// connections are opened afresh from it for each call.
pub struct DbPath {
    path: Option<String>,
}

impl View for DbPath {
    type V = Option<Seq<char>>;

    closed spec fn view(&self) -> Option<Seq<char>> {
        match self.path {
            Some(p) => Some(p@),
            None => None,
        }
    }
}

impl DbPath {
    /// No path stored yet.
    pub fn new() -> (d: DbPath)
        ensures
            d@ is None,
    {
        DbPath { path: None }
    }

    /// Stores the resolved database path. Only the first path stored counts:
    /// once a path is stored, storing another changes nothing.
    pub fn store_path(&mut self, path: String)
        ensures
            final(self)@ == (match old(self)@ {
                Some(p) => Some(p),
                None => Some(path@),
            }),
    {
        if self.path.is_none() {
            self.path = Some(path);
        }
    }

    /// The stored path, if any.
    pub fn path(&self) -> (p: Option<&String>)
        ensures
            match p {
                Some(s) => self@ == Some(s@),
                None => self@ is None,
            },
    {
        match &self.path {
            Some(s) => Some(s),
            None => None,
        }
    }

    /// Opens a read-only connection to the database at the stored path.
    /// Without a stored path the answer is `DB not initialized`; else an
    /// error names the step that failed: opening the file, or setting the
    /// journal mode.
    pub fn open_readonly(&self) -> (r: Result<rusqlite::Connection, String>)
        ensures
            self@ is None ==> (r matches Err(m) && m@ == NOT_INITIALIZED@),
            self@ is Some ==> (r matches Err(m) ==> "Failed to open DB: "@.is_prefix_of(m@)
                || "PRAGMA error: "@.is_prefix_of(m@)),
    {
        match &self.path {
            None => Err(String::from_str(NOT_INITIALIZED)),
            Some(p) => open_wal_readonly(p.as_str()),
        }
    }

    /// Opens a connection for writing from the stored path. Without a stored
    /// path the answer is `DB not initialized`; else an error names the step
    /// that failed: opening the file, or setting the journal mode.
    pub fn open_readwrite(&self) -> (r: Result<rusqlite::Connection, String>)
        ensures
            self@ is None ==> (r matches Err(m) && m@ == NOT_INITIALIZED@),
            self@ is Some ==> (r matches Err(m) ==> "Failed to open DB: "@.is_prefix_of(m@)
                || "PRAGMA error: "@.is_prefix_of(m@)),
    {
        match &self.path {
            None => Err(String::from_str(NOT_INITIALIZED)),
            Some(p) => open_wal(p.as_str()),
        }
    }
}

/// Opens the database at `path` (creating it where it is missing) and runs
/// `migration_steps` on it: the pragmas, then the `sys_config` and
/// `log_entries` tables where they are missing. An error names the step that
/// failed; the steps run in order and the first failure stops them.
pub fn open_and_migrate(path: &str) -> (r: Result<rusqlite::Connection, String>)
    ensures
        r matches Err(m) ==> {
            ||| "Failed to open DB: "@.is_prefix_of(m@)
            ||| "Failed to set PRAGMAs: "@.is_prefix_of(m@)
            ||| "Failed to create sys_config: "@.is_prefix_of(m@)
            ||| "Failed to create log_entries: "@.is_prefix_of(m@)
        },
{
    let conn = match connect(path) {
        Ok(c) => c,
        Err(e) => {
            return Err(prefixed_error("Failed to open DB: ", &e));
        },
    };
    let steps = migration_steps();
    match run_steps(&conn, &steps) {
        Ok(()) => Ok(conn),
        Err(m) => Err(m),
    }
}

} // verus!
