//! Stored log entries in the `log_entries` table, and the logger's
//! configuration.

use vstd::prelude::*;
use crate::settings::SettingsError;
use crate::sql::{
    binds_text,
    Cell, ColumnKind, SqlParam, cell_has_kind, cell_int, cell_text, execute, next_row, prefixed_error,
    prepare, query, query_single, row_has_kinds, rows_left,
};

verus! {

/// The newest entries of one level: `?1` is the level, `?2` the limit.
pub const SELECT_LOGS_BY_LEVEL: &'static str = "SELECT id, level, target, message, created_at FROM log_entries WHERE level = ?1 ORDER BY id DESC LIMIT ?2";

/// The newest entries: `?1` is the limit.
pub const SELECT_LOGS: &'static str = "SELECT id, level, target, message, created_at FROM log_entries ORDER BY id DESC LIMIT ?1";

/// Stores an entry: level `?1`, target `?2`, message `?3`.
pub const INSERT_LOG: &'static str = "INSERT INTO log_entries (level, target, message) VALUES (?1, ?2, ?3)";

/// Removes every entry.
pub const CLEAR_LOGS: &'static str = "DELETE FROM log_entries";

/// Counts the entries.
pub const COUNT_LOGS: &'static str = "SELECT COUNT(*) FROM log_entries";

/// A single log entry stored in SQLite.
#[derive(Debug, Clone)]
pub struct LogEntry {
    pub id: i64,
    pub level: String,
    pub target: String,
    pub message: String,
    pub created_at: String,
}

/// Logger configuration.
#[derive(Debug, Clone)]
pub struct LoggerConfig {
    pub level: String,
}

impl Default for LoggerConfig {
    /// The default configuration logs at level `info`.
    fn default() -> (c: LoggerConfig)
        ensures
            c.level@ == "info"@,
    {
        LoggerConfig { level: String::from_str("info") }
    }
}

/// The column types of a row of `SELECT_LOGS` or `SELECT_LOGS_BY_LEVEL`: the
/// id, then level, target, message and creation time as text.
pub open spec fn log_row_kinds() -> Seq<ColumnKind> {
    seq![ColumnKind::Int, ColumnKind::Text, ColumnKind::Text, ColumnKind::Text, ColumnKind::Text]
}

/// The statement and parameters that `query_logs` runs: with a level filter,
/// the entries of that level (the level, then the limit); without, all
/// entries (the limit alone). Both list the newest first, at most `limit` of
/// them (SQLite reads a negative limit as none).
pub fn log_query_statement(limit: i64, level_filter: Option<&str>) -> (r: (&'static str, Vec<SqlParam>))
    ensures
        match level_filter {
            Some(l) => {
                &&& r.0 == SELECT_LOGS_BY_LEVEL
                &&& r.1@.len() == 2
                &&& binds_text(r.1@[0], l@)
                &&& r.1@[1] == SqlParam::Int(limit)
            },
            None => {
                &&& r.0 == SELECT_LOGS
                &&& r.1@ == seq![SqlParam::Int(limit)]
            },
        },
{
    match level_filter {
        Some(l) => (SELECT_LOGS_BY_LEVEL, vec![SqlParam::Text(String::from_str(l)), SqlParam::Int(limit)]),
        None => (SELECT_LOGS, vec![SqlParam::Int(limit)]),
    }
}

/// The entry that a row read as `log_row_kinds` holds, field by field in
/// column order.
pub fn log_entry_from_row(cells: Vec<Cell>) -> (e: LogEntry)
    requires
        row_has_kinds(cells@, log_row_kinds()),
    ensures
        e.id == cell_int(cells@[0]),
        e.level@ == cell_text(cells@[1]),
        e.target@ == cell_text(cells@[2]),
        e.message@ == cell_text(cells@[3]),
        e.created_at@ == cell_text(cells@[4]),
{
    let mut cells = cells;
    let ghost c = cells@;
    assert(cell_has_kind(c[0], ColumnKind::Int));
    assert(cell_has_kind(c[1], ColumnKind::Text));
    assert(cell_has_kind(c[2], ColumnKind::Text));
    assert(cell_has_kind(c[3], ColumnKind::Text));
    assert(cell_has_kind(c[4], ColumnKind::Text));
    let c4 = cells.pop().unwrap();
    let c3 = cells.pop().unwrap();
    let c2 = cells.pop().unwrap();
    let c1 = cells.pop().unwrap();
    let c0 = cells.pop().unwrap();
    match (c0, c1, c2, c3, c4) {
        (Cell::Int(id), Cell::Text(level), Cell::Text(target), Cell::Text(message), Cell::Text(created_at)) => {
            LogEntry { id, level, target, message, created_at }
        },
        _ => {
            assert(false);
            LogEntry {
                id: 0,
                level: String::new(),
                target: String::new(),
                message: String::new(),
                created_at: String::new(),
            }
        },
    }
}

/// `e` holds, field by field, the columns of `row`: the id, then level,
/// target, message and creation time.
pub open spec fn entry_of_row(e: LogEntry, row: Seq<Cell>) -> bool {
    &&& e.id == cell_int(row[0])
    &&& e.level@ == cell_text(row[1])
    &&& e.target@ == cell_text(row[2])
    &&& e.message@ == cell_text(row[3])
    &&& e.created_at@ == cell_text(row[4])
}

/// Reads every row left in `rows` as a log entry, in order. An error while
/// reading names the step: `Failed to read log rows: `.
pub fn read_log_rows(rows: &mut rusqlite::Rows<'_>) -> (r: Result<Vec<LogEntry>, String>)
    ensures
        r matches Ok(v) ==> {
            &&& v@.len() == rows_left(old(rows)).len()
            &&& forall|i: int| 0 <= i < v@.len() ==> entry_of_row(#[trigger] v@[i], rows_left(old(rows))[i])
        },
        r matches Err(m) ==> "Failed to read log rows: "@.is_prefix_of(m@),
{
    let ghost start = rows_left(rows);
    assert(start == rows_left(old(rows)));
    let kinds = vec![ColumnKind::Int, ColumnKind::Text, ColumnKind::Text, ColumnKind::Text, ColumnKind::Text];
    let mut entries: Vec<LogEntry> = Vec::new();
    loop
        invariant
            kinds@ == log_row_kinds(),
            start == rows_left(old(rows)),
            entries@.len() <= start.len(),
            rows_left(rows) == start.skip(entries@.len() as int),
            forall|i: int| 0 <= i < entries@.len() ==> entry_of_row(#[trigger] entries@[i], start[i]),
        decreases rows_left(rows).len(),
    {
        let ghost before = rows_left(rows);
        let ghost n = entries@.len() as int;
        match next_row(rows, kinds.as_slice()) {
            Ok(Some(cells)) => {
                let ghost row = before[0];
                assert(row == start[n]);
                let e = log_entry_from_row(cells);
                assert(entry_of_row(e, row));
                entries.push(e);
                assert(start.skip(n).drop_first() =~= start.skip(n + 1));
            },
            Ok(None) => {
                return Ok(entries);
            },
            Err(e) => {
                return Err(prefixed_error("Failed to read log rows: ", &e));
            },
        }
    }
}

/// `e` passes the level filter: its level equals the filter's text exactly,
/// or there is no filter.
pub open spec fn level_kept(e: LogEntry, filter: Option<Seq<char>>) -> bool {
    match filter {
        Some(l) => e.level@ == l,
        None => true,
    }
}

/// The entries of `s` that pass the level filter, in order.
pub open spec fn kept_entries(s: Seq<LogEntry>, filter: Option<Seq<char>>) -> Seq<LogEntry>
    decreases s.len(),
{
    if s.len() == 0 {
        Seq::empty()
    } else {
        let rest = kept_entries(s.drop_last(), filter);
        if level_kept(s.last(), filter) {
            rest.push(s.last())
        } else {
            rest
        }
    }
}

/// The first `limit` of `s`, or all of `s` where `limit` is negative or not
/// smaller than its length.
pub open spec fn first_up_to(s: Seq<LogEntry>, limit: i64) -> Seq<LogEntry> {
    if limit < 0 || limit >= s.len() {
        s
    } else {
        s.take(limit as int)
    }
}

/// The view of an optional text.
pub open spec fn filter_view(s: Option<&str>) -> Option<Seq<char>> {
    match s {
        Some(t) => Some(t@),
        None => None,
    }
}

/// Whether two texts are equal, character by character.
pub fn same_text(a: &str, b: &str) -> (r: bool)
    ensures
        r == (a@ == b@),
{
    let n: usize = a.unicode_len();
    if n != b.unicode_len() {
        return false;
    }
    let mut i: usize = 0;
    while i < n
        invariant
            n == a@.len(),
            n == b@.len(),
            i <= n,
            forall|j: int| 0 <= j < i ==> a@[j] == b@[j],
        decreases n - i,
    {
        if a.get_char(i) != b.get_char(i) {
            return false;
        }
        i = i + 1;
    }
    assert(a@ =~= b@);
    true
}

proof fn lemma_kept_entries_step(s: Seq<LogEntry>, i: int, filter: Option<Seq<char>>)
    requires
        0 <= i < s.len(),
    ensures
        kept_entries(s.take(i + 1), filter) == (if level_kept(s[i], filter) {
            kept_entries(s.take(i), filter).push(s[i])
        } else {
            kept_entries(s.take(i), filter)
        }),
{
    assert(s.take(i + 1).drop_last() =~= s.take(i));
    assert(s.take(i + 1).last() == s[i]);
}

/// Every entry that `kept_entries` keeps passes the filter.
pub proof fn lemma_kept_entries_pass(s: Seq<LogEntry>, filter: Option<Seq<char>>)
    ensures
        forall|i: int|
            0 <= i < kept_entries(s, filter).len() ==> level_kept(#[trigger] kept_entries(s, filter)[i], filter),
    decreases s.len(),
{
    if s.len() > 0 {
        lemma_kept_entries_pass(s.drop_last(), filter);
        let rest = kept_entries(s.drop_last(), filter);
        let k = kept_entries(s, filter);
        assert forall|i: int| 0 <= i < k.len() implies level_kept(#[trigger] k[i], filter) by {
            if i < rest.len() {
                assert(k[i] == rest[i]);
            }
        }
    }
}

/// Over the same entries, a smaller non-negative limit selects a prefix of
/// what a larger one selects, and a negative limit selects every entry that
/// passes the filter.
pub proof fn lemma_limits_nest(s: Seq<LogEntry>, filter: Option<Seq<char>>, l1: i64, l2: i64)
    ensures
        0 <= l1 <= l2 ==> first_up_to(kept_entries(s, filter), l1).is_prefix_of(
            first_up_to(kept_entries(s, filter), l2),
        ),
        l1 < 0 ==> first_up_to(kept_entries(s, filter), l1) == kept_entries(s, filter),
        l1 >= 0 ==> first_up_to(kept_entries(s, filter), l1).len() <= l1,
{
    let k = kept_entries(s, filter);
    if 0 <= l1 <= l2 {
        let a = first_up_to(k, l1);
        let b = first_up_to(k, l2);
        assert(a =~= b.subrange(0, a.len() as int));
    }
}

/// Keeps, in order, the entries whose level equals `level_filter` exactly
/// (all of them without a filter), and of those the first `limit` (all
/// where `limit` is negative).
pub fn select_entries(entries: Vec<LogEntry>, limit: i64, level_filter: Option<&str>) -> (r: Vec<LogEntry>)
    ensures
        r@ == first_up_to(kept_entries(entries@, filter_view(level_filter)), limit),
        limit >= 0 ==> r@.len() <= limit,
        forall|i: int|
            0 <= i < r@.len() ==> (level_filter matches Some(l) ==> (#[trigger] r@[i]).level@ == l@),
{
    let ghost all = entries@;
    let ghost f = filter_view(level_filter);
    let mut rest = entries;
    let mut out: Vec<LogEntry> = Vec::new();
    let ghost mut i: int = 0;
    while rest.len() > 0
        invariant
            0 <= i <= all.len(),
            rest@ == all.skip(i),
            f == filter_view(level_filter),
            out@ == first_up_to(kept_entries(all.take(i), f), limit),
        decreases rest@.len(),
    {
        let e = rest.remove(0);
        assert(e == all[i]);
        let keep = match level_filter {
            Some(l) => same_text(e.level.as_str(), l),
            None => true,
        };
        proof {
            lemma_kept_entries_step(all, i, f);
        }
        let ghost k = kept_entries(all.take(i), f);
        if keep && (limit < 0 || (out.len() as i64) < limit) {
            out.push(e);
            assert(out@ =~= first_up_to(k.push(all[i]), limit));
        } else if keep {
            assert(first_up_to(k.push(all[i]), limit) =~= first_up_to(k, limit));
        }
        proof {
            assert(all.skip(i).drop_first() =~= all.skip(i + 1));
            i = i + 1;
        }
    }
    assert(all.take(i) =~= all);
    proof {
        lemma_kept_entries_pass(all, f);
        let k = kept_entries(all, f);
        assert forall|j: int| 0 <= j < out@.len() implies (level_filter matches Some(l) ==> (
        #[trigger] out@[j]).level@ == l@) by {
            assert(out@[j] == k[j]);
            assert(level_kept(k[j], f));
        }
    }
    out
}

/// Queries the most recent log entries, newest first, at most `limit` of
/// them (all where `limit` is negative), only those of level `level_filter`
/// where one is given. It runs `log_query_statement(limit, level_filter)`,
/// reads the rows as `read_log_rows` says, and keeps of them what
/// `select_entries` keeps; which rows come depends on the database. An error
/// names the step that failed: preparing the query, running it, or reading
/// its rows.
pub fn query_logs(conn: &rusqlite::Connection, limit: i64, level_filter: Option<&str>) -> (r: Result<
    Vec<LogEntry>,
    String,
>)
    ensures
        r matches Err(m) ==> {
            ||| "Failed to prepare query: "@.is_prefix_of(m@)
            ||| "Failed to query logs: "@.is_prefix_of(m@)
            ||| "Failed to read log rows: "@.is_prefix_of(m@)
        },
        r matches Ok(v) ==> (limit >= 0 ==> v@.len() <= limit),
        r matches Ok(v) ==> forall|i: int|
            0 <= i < v@.len() ==> (level_filter matches Some(l) ==> (#[trigger] v@[i]).level@ == l@),
{
    let (sql, params) = log_query_statement(limit, level_filter);
    let mut stmt = match prepare(conn, sql) {
        Ok(s) => s,
        Err(e) => {
            return Err(prefixed_error("Failed to prepare query: ", &e));
        },
    };
    let mut rows = match query(&mut stmt, params.as_slice()) {
        Ok(rows) => rows,
        Err(e) => {
            return Err(prefixed_error("Failed to query logs: ", &e));
        },
    };
    match read_log_rows(&mut rows) {
        Ok(entries) => Ok(select_entries(entries, limit, level_filter)),
        Err(m) => Err(m),
    }
}

/// The statement and parameters that `insert_log` runs: `INSERT_LOG` with the
/// level, the target and the message, in this order.
pub fn insert_log_statement(level: &str, target: &str, message: &str) -> (r: (&'static str, Vec<SqlParam>))
    ensures
        r.0 == INSERT_LOG,
        r.1@.len() == 3,
        binds_text(r.1@[0], level@),
        binds_text(r.1@[1], target@),
        binds_text(r.1@[2], message@),
{
    (
        INSERT_LOG,
        vec![
            SqlParam::Text(String::from_str(level)),
            SqlParam::Text(String::from_str(target)),
            SqlParam::Text(String::from_str(message)),
        ],
    )
}

/// Inserts a log entry; the database assigns its id and creation time. It
/// runs `insert_log_statement(level, target, message)`; an error carries the
/// database's message.
pub fn insert_log(conn: &rusqlite::Connection, level: &str, target: &str, message: &str) -> (r: Result<
    (),
    String,
>)
    ensures
        r matches Err(m) ==> "Failed to insert log: "@.is_prefix_of(m@),
{
    let (sql, params) = insert_log_statement(level, target, message);
    match execute(conn, sql, params.as_slice()) {
        Ok(_) => Ok(()),
        Err(e) => Err(prefixed_error("Failed to insert log: ", &e)),
    }
}

/// The statement that `clear_logs` runs: `CLEAR_LOGS`, with no parameter.
pub fn clear_logs_statement() -> (r: (&'static str, Vec<SqlParam>))
    ensures
        r.0 == CLEAR_LOGS,
        r.1@.len() == 0,
{
    (CLEAR_LOGS, Vec::new())
}

/// Clears all stored log entries. It runs `clear_logs_statement()`; an error
/// carries the database's message.
pub fn clear_logs(conn: &rusqlite::Connection) -> (r: Result<(), String>)
    ensures
        r matches Err(m) ==> "Failed to clear logs: "@.is_prefix_of(m@),
{
    let (sql, params) = clear_logs_statement();
    match execute(conn, sql, params.as_slice()) {
        Ok(_) => Ok(()),
        Err(e) => Err(prefixed_error("Failed to clear logs: ", &e)),
    }
}

/// The statement that `log_count` runs: `COUNT_LOGS`, with no parameter.
pub fn count_logs_statement() -> (r: (&'static str, Vec<SqlParam>))
    ensures
        r.0 == COUNT_LOGS,
        r.1@.len() == 0,
{
    (COUNT_LOGS, Vec::new())
}

/// What `log_count` answers for the outcome of its query: the integer read,
/// or the query's error after `Failed to get count: `.
pub fn count_from_result(r: Result<Cell, rusqlite::Error>) -> (out: Result<i64, String>)
    requires
        r matches Ok(c) ==> cell_has_kind(c, ColumnKind::Int),
    ensures
        r matches Ok(c) ==> out == Ok::<i64, String>(cell_int(c)),
        r is Err ==> (out matches Err(m) && "Failed to get count: "@.is_prefix_of(m@)),
{
    match r {
        Ok(Cell::Int(n)) => Ok(n),
        Ok(Cell::Text(_)) => {
            assert(false);
            Ok(0)
        },
        Err(e) => Err(prefixed_error("Failed to get count: ", &e)),
    }
}

/// Gets the total count of stored log entries. It runs
/// `count_logs_statement()` and answers as `count_from_result` says. An error
/// names the step that failed: preparing the count, or running it.
pub fn log_count(conn: &rusqlite::Connection) -> (r: Result<i64, String>)
    ensures
        r matches Err(m) ==> {
            ||| "Failed to prepare count query: "@.is_prefix_of(m@)
            ||| "Failed to get count: "@.is_prefix_of(m@)
        },
{
    let (sql, params) = count_logs_statement();
    let mut stmt = match prepare(conn, sql) {
        Ok(s) => s,
        Err(e) => {
            return Err(prefixed_error("Failed to prepare count query: ", &e));
        },
    };
    count_from_result(query_single(&mut stmt, params.as_slice(), ColumnKind::Int))
}

/// The level the logger starts with: the stored `log.level` setting where
/// reading it gave a value, else `info`.
pub fn initial_log_level(stored: Result<Option<String>, SettingsError>) -> (level: String)
    ensures
        match stored {
            Ok(Some(v)) => level@ == v@,
            _ => level@ == "info"@,
        },
{
    match stored {
        Ok(Some(v)) => v,
        _ => String::from_str("info"),
    }
}

} // verus!
