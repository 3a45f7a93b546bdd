//! Key-value settings store kept in the `sys_config` table.
//!
//! All values are stored as strings; the typed accessors hold JSON text.

pub mod keys;

use vstd::prelude::*;
use crate::clock::now_rfc3339;
use crate::sql::{
    binds_text,
    Cell, ColumnKind, SqlParam, error_text, execute, is_no_rows, next_row, prepare, query,
    query_single, row_has_kinds, cell_text, cell_has_kind, rows_left,
};

verus! {

#[verifier::external_type_specification]
#[verifier::external_body]
pub struct ExJsonValue(serde_json::Value);

#[verifier::external_type_specification]
#[verifier::external_body]
pub struct ExJsonError(serde_json::Error);

/// Error type for settings operations.
#[derive(Debug)]
pub enum SettingsError {
    /// The database refused or failed the operation; the database's message.
    Db(String),
    /// No value is stored under the key.
    NotFound(String),
    /// A stored value is not JSON, or a value could not be written as JSON.
    Serialization(serde_json::Error),
}

/// `text` is a JSON document that `serde_json` accepts as a `Value`.
pub uninterp spec fn is_json(text: Seq<char>) -> bool;

/// Parses `text` as a JSON value, through `serde_json::from_str`. Whether it
/// succeeds depends on the text alone: the contract names that by
/// `is_json`. The parsed value is opaque here and nothing is stated of it.
#[verifier::external_body]
fn parse_json(text: &str) -> (r: Result<serde_json::Value, serde_json::Error>)
    ensures
        r is Ok <==> is_json(text@),
{
    serde_json::from_str(text)
}

/// Writes `value` as JSON text, through `serde_json::to_string`. A `Value`'s
/// `Serialize` impl (serde_json's `value/ser.rs`) has only string map keys
/// and never fails, so this succeeds; the value is opaque here and nothing
/// is stated of the text.
#[verifier::external_body]
fn json_text(value: &serde_json::Value) -> (r: Result<String, serde_json::Error>)
    ensures
        r is Ok,
{
    serde_json::to_string(value)
}

/// The message of a JSON error, through its `Display` impl. Nothing is
/// stated of the text.
#[verifier::external_body]
fn json_error_text(e: &serde_json::Error) -> (r: String) {
    e.to_string()
}

/// Reads the value stored under `?1`.
pub const SELECT_SETTING: &'static str = "SELECT value FROM sys_config WHERE key = ?1";

/// Stores `?2` under `?1` with the time `?3`, replacing a stored value.
pub const UPSERT_SETTING: &'static str = "INSERT INTO sys_config (key, value, updated_at) VALUES (?1, ?2, ?3)
         ON CONFLICT(key) DO UPDATE SET value = ?2, updated_at = ?3";

/// Removes the value stored under `?1`.
pub const DELETE_SETTING: &'static str = "DELETE FROM sys_config WHERE key = ?1";

/// Lists the keys and values whose key begins with `?1`, ordered by key:
/// the first `length(?1)` characters of the key equal `?1` exactly (an empty
/// `?1` keeps every text key).
pub const LIST_SETTINGS: &'static str = "SELECT key, value FROM sys_config WHERE substr(key, 1, length(?1)) = ?1 ORDER BY key";

/// The error that `set` answers when the clock cannot be read as a time to
/// stamp the value with.
pub const CLOCK_ERROR: &'static str = "system clock cannot be read as a timestamp";

/// The statement and parameter that `get` runs: `SELECT_SETTING` with the key.
pub fn select_setting_statement(key: &str) -> (r: (&'static str, Vec<SqlParam>))
    ensures
        r.0 == SELECT_SETTING,
        r.1@.len() == 1,
        binds_text(r.1@[0], key@),
{
    (SELECT_SETTING, vec![SqlParam::Text(String::from_str(key))])
}

/// The statement and parameters that `set` runs: `UPSERT_SETTING` with the
/// key, the value and the time stamp, in this order.
pub fn upsert_statement(key: &str, value: &str, now: String) -> (r: (&'static str, Vec<SqlParam>))
    ensures
        r.0 == UPSERT_SETTING,
        r.1@.len() == 3,
        binds_text(r.1@[0], key@),
        binds_text(r.1@[1], value@),
        binds_text(r.1@[2], now@),
{
    (
        UPSERT_SETTING,
        vec![
            SqlParam::Text(String::from_str(key)),
            SqlParam::Text(String::from_str(value)),
            SqlParam::Text(now),
        ],
    )
}

/// The statement and parameter that `delete` runs: `DELETE_SETTING` with the
/// key.
pub fn delete_statement(key: &str) -> (r: (&'static str, Vec<SqlParam>))
    ensures
        r.0 == DELETE_SETTING,
        r.1@.len() == 1,
        binds_text(r.1@[0], key@),
{
    (DELETE_SETTING, vec![SqlParam::Text(String::from_str(key))])
}

/// How looking up one stored value ended.
pub enum Lookup {
    /// A value was read.
    Found(String),
    /// The query returned no row: nothing is stored under the key.
    NoRow,
    /// The database failed, with its message.
    Failed(String),
}

/// The lookup that a single-value query's outcome amounts to: a value read
/// is found; an error is "no row" where `no_rows` says the query returned no
/// row, and a failure otherwise.
pub fn lookup_from_result(r: Result<Cell, rusqlite::Error>, no_rows: bool) -> (l: Lookup)
    requires
        r matches Ok(c) ==> cell_has_kind(c, ColumnKind::Text),
    ensures
        r matches Ok(c) ==> (l matches Lookup::Found(v) && v@ == cell_text(c)),
        r is Err ==> (no_rows <==> l is NoRow),
        r is Err ==> (l is NoRow || l is Failed),
{
    match r {
        Ok(Cell::Text(v)) => Lookup::Found(v),
        Ok(Cell::Int(_)) => {
            assert(false);
            Lookup::NoRow
        },
        Err(e) => {
            if no_rows {
                Lookup::NoRow
            } else {
                Lookup::Failed(error_text(&e))
            }
        },
    }
}

/// What `get` answers for each way the lookup can end: the value, no value,
/// or a database error carrying the database's message.
pub fn setting_from_lookup(lookup: Lookup) -> (r: Result<Option<String>, SettingsError>)
    ensures
        match lookup {
            Lookup::Found(v) => r matches Ok(Some(w)) && w@ == v@,
            Lookup::NoRow => r matches Ok(None),
            Lookup::Failed(m) => r matches Err(SettingsError::Db(d)) && d@ == m@,
        },
{
    match lookup {
        Lookup::Found(v) => Ok(Some(v)),
        Lookup::NoRow => Ok(None),
        Lookup::Failed(m) => Err(SettingsError::Db(m)),
    }
}

/// Gets a string value by key: `Ok(None)` where nothing is stored under it.
/// It runs `select_setting_statement(key)` and answers as
/// `lookup_from_result` and `setting_from_lookup` say; which of the three
/// answers comes depends on the database: a value, no value, or a database
/// error.
pub fn get(conn: &rusqlite::Connection, key: &str) -> (r: Result<Option<String>, SettingsError>)
    ensures
        r is Ok || r matches Err(SettingsError::Db(_)),
{
    let (sql, params) = select_setting_statement(key);
    let mut stmt = match prepare(conn, sql) {
        Ok(s) => s,
        Err(e) => {
            return Err(SettingsError::from(e));
        },
    };
    let result = query_single(&mut stmt, params.as_slice(), ColumnKind::Text);
    let no_rows = match &result {
        Ok(_) => false,
        Err(e) => is_no_rows(e),
    };
    setting_from_lookup(lookup_from_result(result, no_rows))
}

/// Sets a key-value pair, stamping it with the current UTC time in RFC 3339
/// form; a value already stored under the key is replaced. It runs
/// `upsert_statement(key, value, now)`. Where the clock cannot be read as a
/// time stamp the answer is `Db(CLOCK_ERROR)` and nothing is written;
/// otherwise the outcome depends on the database: success, or a database
/// error.
pub fn set(conn: &rusqlite::Connection, key: &str, value: &str) -> (r: Result<(), SettingsError>)
    ensures
        r is Ok || r matches Err(SettingsError::Db(_)),
{
    let now = match now_rfc3339() {
        Some(t) => t,
        None => {
            return Err(SettingsError::Db(String::from_str(CLOCK_ERROR)));
        },
    };
    let (sql, params) = upsert_statement(key, value, now);
    match execute(conn, sql, params.as_slice()) {
        Ok(_) => Ok(()),
        Err(e) => Err(SettingsError::from(e)),
    }
}

/// Deletes a key (deleting a key that is not stored is no error). It runs
/// `delete_statement(key)`; the outcome depends on the database: success, or
/// a database error.
pub fn delete(conn: &rusqlite::Connection, key: &str) -> (r: Result<(), SettingsError>)
    ensures
        r is Ok || r matches Err(SettingsError::Db(_)),
{
    let (sql, params) = delete_statement(key);
    match execute(conn, sql, params.as_slice()) {
        Ok(_) => Ok(()),
        Err(e) => Err(SettingsError::from(e)),
    }
}

/// The key `prefix` asks for is a prefix of `key`: every key without one.
pub open spec fn key_selected(key: Seq<char>, prefix: Option<Seq<char>>) -> bool {
    match prefix {
        Some(p) => p.is_prefix_of(key),
        None => true,
    }
}

/// The view of an optional text.
pub open spec fn opt_view(s: Option<&str>) -> Option<Seq<char>> {
    match s {
        Some(t) => Some(t@),
        None => None,
    }
}

/// The (key, value) pairs of `rows` (each read as two text columns), in
/// order, keeping those whose key has the prefix.
pub open spec fn selected_settings(rows: Seq<Seq<Cell>>, prefix: Option<Seq<char>>) -> Seq<
    (Seq<char>, Seq<char>),
>
    decreases rows.len(),
{
    if rows.len() == 0 {
        Seq::empty()
    } else {
        let rest = selected_settings(rows.drop_last(), prefix);
        let last = rows.last();
        if key_selected(cell_text(last[0]), prefix) {
            rest.push((cell_text(last[0]), cell_text(last[1])))
        } else {
            rest
        }
    }
}

/// The views of (key, value) pairs.
pub open spec fn pairs_view(v: Seq<(String, String)>) -> Seq<(Seq<char>, Seq<char>)> {
    v.map_values(|p: (String, String)| (p.0@, p.1@))
}

/// Every pair that `selected_settings` keeps has a selected key.
pub proof fn lemma_selected_keys(rows: Seq<Seq<Cell>>, prefix: Option<Seq<char>>)
    ensures
        forall|i: int|
            0 <= i < selected_settings(rows, prefix).len() ==> key_selected(
                #[trigger] selected_settings(rows, prefix)[i].0,
                prefix,
            ),
    decreases rows.len(),
{
    if rows.len() > 0 {
        lemma_selected_keys(rows.drop_last(), prefix);
        let rest = selected_settings(rows.drop_last(), prefix);
        let s = selected_settings(rows, prefix);
        assert forall|i: int| 0 <= i < s.len() implies key_selected(#[trigger] s[i].0, prefix) by {
            if i < rest.len() {
                assert(s[i] == rest[i]);
            }
        }
    }
}

/// Whether `prefix` is a prefix of `key`, character by character.
pub fn starts_with(key: &str, prefix: &str) -> (b: bool)
    ensures
        b == prefix@.is_prefix_of(key@),
{
    let n: usize = prefix.unicode_len();
    if n > key.unicode_len() {
        return false;
    }
    let mut i: usize = 0;
    while i < n
        invariant
            n == prefix@.len(),
            n <= key@.len(),
            i <= n,
            forall|j: int| 0 <= j < i ==> prefix@[j] == key@[j],
        decreases n - i,
    {
        if prefix.get_char(i) != key.get_char(i) {
            return false;
        }
        i = i + 1;
    }
    assert(prefix@ =~= key@.subrange(0, n as int));
    true
}

/// The (key, value) pair that a row read as two text columns holds.
pub fn setting_from_row(cells: Vec<Cell>) -> (pair: (String, String))
    requires
        row_has_kinds(cells@, seq![ColumnKind::Text, ColumnKind::Text]),
    ensures
        pair.0@ == cell_text(cells@[0]),
        pair.1@ == cell_text(cells@[1]),
{
    let mut cells = cells;
    let ghost c = cells@;
    assert(cell_has_kind(c[0], ColumnKind::Text) && cell_has_kind(c[1], ColumnKind::Text));
    let second = cells.pop().unwrap();
    let first = cells.pop().unwrap();
    match (first, second) {
        (Cell::Text(k), Cell::Text(v)) => (k, v),
        _ => {
            assert(false);
            (String::new(), String::new())
        },
    }
}

/// Reads every row left in `rows` as a (key, value) pair of texts, in order,
/// and keeps those whose key begins with `prefix` (all of them without one;
/// the comparison is exact, character by character). An error while reading
/// is a database error.
pub fn read_setting_rows(rows: &mut rusqlite::Rows<'_>, prefix: Option<&str>) -> (r: Result<
    Vec<(String, String)>,
    SettingsError,
>)
    ensures
        r matches Ok(v) ==> pairs_view(v@) == selected_settings(rows_left(old(rows)), opt_view(prefix)),
        r matches Ok(v) ==> forall|i: int|
            0 <= i < v@.len() ==> key_selected(#[trigger] v@[i].0@, opt_view(prefix)),
        r is Ok || r matches Err(SettingsError::Db(_)),
{
    let ghost start = rows_left(rows);
    assert(start == rows_left(old(rows)));
    let ghost p = opt_view(prefix);
    let kinds = vec![ColumnKind::Text, ColumnKind::Text];
    let mut out: Vec<(String, String)> = Vec::new();
    let ghost mut taken: int = 0;
    loop
        invariant
            kinds@ == seq![ColumnKind::Text, ColumnKind::Text],
            p == opt_view(prefix),
            start == rows_left(old(rows)),
            0 <= taken <= start.len(),
            rows_left(rows) == start.skip(taken),
            pairs_view(out@) == selected_settings(start.take(taken), p),
        decreases rows_left(rows).len(),
    {
        let ghost before = rows_left(rows);
        match next_row(rows, kinds.as_slice()) {
            Ok(Some(cells)) => {
                let ghost row = before[0];
                assert(row == start[taken]);
                let pair = setting_from_row(cells);
                let keep = match prefix {
                    Some(q) => starts_with(pair.0.as_str(), q),
                    None => true,
                };
                proof {
                    assert(start.take(taken + 1).drop_last() =~= start.take(taken));
                    assert(start.take(taken + 1).last() == row);
                    assert(cell_text(row[0]) == cell_text(row.take(2)[0]));
                    assert(cell_text(row[1]) == cell_text(row.take(2)[1]));
                }
                if keep {
                    let ghost old_out = out@;
                    out.push(pair);
                    proof {
                        assert(pairs_view(out@) =~= pairs_view(old_out).push((pair.0@, pair.1@)));
                    }
                }
                proof {
                    taken = taken + 1;
                    assert(start.skip(taken - 1).drop_first() =~= start.skip(taken));
                }
            },
            Ok(None) => {
                assert(start.take(taken) =~= start);
                assert(pairs_view(out@) == selected_settings(start, p));
                proof {
                    lemma_selected_keys(start, p);
                    assert forall|i: int| 0 <= i < out@.len() implies key_selected(
                        #[trigger] out@[i].0@,
                        p,
                    ) by {
                        assert(pairs_view(out@)[i] == (out@[i].0@, out@[i].1@));
                        assert(selected_settings(start, p)[i].0 == out@[i].0@);
                    }
                }
                return Ok(out);
            },
            Err(e) => {
                return Err(SettingsError::from(e));
            },
        }
    }
}

/// The statement and parameter that `list_prefix` runs: `LIST_SETTINGS` with
/// the prefix, or the empty text (every key) without one.
pub fn list_settings_statement(prefix: Option<&str>) -> (r: (&'static str, Vec<SqlParam>))
    ensures
        r.0 == LIST_SETTINGS,
        r.1@.len() == 1,
        binds_text(
            r.1@[0],
            match prefix {
                Some(p) => p@,
                None => Seq::<char>::empty(),
            },
        ),
{
    match prefix {
        Some(p) => (LIST_SETTINGS, vec![SqlParam::Text(String::from_str(p))]),
        None => (LIST_SETTINGS, vec![SqlParam::Text(String::new())]),
    }
}

/// An empty prefix keeps exactly the rows that no prefix keeps.
pub proof fn lemma_empty_prefix_keeps_all(rows: Seq<Seq<Cell>>)
    ensures
        selected_settings(rows, Some(Seq::<char>::empty())) == selected_settings(rows, None),
    decreases rows.len(),
{
    if rows.len() > 0 {
        lemma_empty_prefix_keeps_all(rows.drop_last());
        assert(Seq::<char>::empty().is_prefix_of(cell_text(rows.last()[0])));
    }
}

/// Lists the settings ordered by key, only those whose key begins with
/// `prefix` where one is given (an exact, case-sensitive prefix). It runs
/// `list_settings_statement(prefix)`, so the database selects the rows, and
/// reads them as `read_setting_rows` says; the rows depend on the database:
/// the answer is the pairs kept, or a database error.
pub fn list_prefix(conn: &rusqlite::Connection, prefix: Option<&str>) -> (r: Result<
    Vec<(String, String)>,
    SettingsError,
>)
    ensures
        r is Ok || r matches Err(SettingsError::Db(_)),
        r matches Ok(v) ==> forall|i: int|
            0 <= i < v@.len() ==> key_selected(#[trigger] v@[i].0@, opt_view(prefix)),
{
    let (sql, params) = list_settings_statement(prefix);
    let mut stmt = match prepare(conn, sql) {
        Ok(s) => s,
        Err(e) => {
            return Err(SettingsError::from(e));
        },
    };
    let mut rows = match query(&mut stmt, params.as_slice()) {
        Ok(rows) => rows,
        Err(e) => {
            return Err(SettingsError::from(e));
        },
    };
    read_setting_rows(&mut rows, prefix)
}

/// What `get_typed` answers once the stored text under `key` is known:
/// `NotFound(key)` where nothing is stored, else the parsed JSON value, or a
/// serialization error exactly when the text is not JSON.
pub fn value_from_stored(key: &str, raw: Option<String>) -> (r: Result<serde_json::Value, SettingsError>)
    ensures
        match raw {
            None => r matches Err(SettingsError::NotFound(k)) && k@ == key@,
            Some(t) => {
                &&& (r is Ok <==> is_json(t@))
                &&& (r is Err ==> r matches Err(SettingsError::Serialization(_)))
            },
        },
{
    match raw {
        None => Err(SettingsError::NotFound(String::from_str(key))),
        Some(t) => match parse_json(t.as_str()) {
            Ok(v) => Ok(v),
            Err(e) => Err(SettingsError::Serialization(e)),
        },
    }
}

/// The message a frontend command answers for a key with nothing stored:
/// `Key '<key>' not found`.
pub fn key_not_found_message(key: &str) -> (m: String)
    ensures
        m@ == "Key '"@ + key@ + "' not found"@,
{
    String::from_str("Key '").concat(key).concat("' not found")
}

/// Gets a value stored as JSON text and parses it: `NotFound(key)` where
/// nothing is stored, a serialization error where the text is not JSON, or
/// a database error.
pub fn get_typed(conn: &rusqlite::Connection, key: &str) -> (r: Result<serde_json::Value, SettingsError>)
    ensures
        r is Ok || r matches Err(SettingsError::Db(_)) || r matches Err(SettingsError::NotFound(_))
            || r matches Err(SettingsError::Serialization(_)),
        r matches Err(SettingsError::NotFound(k)) ==> k@ == key@,
{
    let raw = match get(conn, key) {
        Ok(raw) => raw,
        Err(e) => {
            return Err(e);
        },
    };
    value_from_stored(key, raw)
}

/// Stores `value` as JSON text under `key`, as `set` does with that text
/// (writing a JSON value as text cannot fail). The answer is success or a
/// database error.
pub fn set_typed(conn: &rusqlite::Connection, key: &str, value: &serde_json::Value) -> (r: Result<
    (),
    SettingsError,
>)
    ensures
        r is Ok || r matches Err(SettingsError::Db(_)),
{
    let raw = match json_text(value) {
        Ok(raw) => raw,
        Err(e) => {
            return Err(SettingsError::Serialization(e));
        },
    };
    set(conn, key, raw.as_str())
}

impl From<rusqlite::Error> for SettingsError {
    /// A database error carrying the error's message.
    fn from(e: rusqlite::Error) -> (r: SettingsError)
        ensures
            r matches SettingsError::Db(_),
    {
        SettingsError::Db(error_text(&e))
    }
}

impl vstd::std_specs::convert::FromSpecImpl<rusqlite::Error> for SettingsError {
    /// The message of a database error is opaque here, so `from` is not
    /// described by a spec function; its own `ensures` says it gives `Db`.
    open spec fn obeys_from_spec() -> bool {
        false
    }

    open spec fn from_spec(e: rusqlite::Error) -> SettingsError {
        arbitrary()
    }
}

impl SettingsError {
    /// The error's message: `database error: `, `key not found: ` or
    /// `serialization error: ` followed by what it carries.
    pub fn to_string(&self) -> (m: String)
        ensures
            match self {
                SettingsError::Db(d) => m@ == "database error: "@ + d@,
                SettingsError::NotFound(k) => m@ == "key not found: "@ + k@,
                SettingsError::Serialization(_) => "serialization error: "@.is_prefix_of(m@),
            },
    {
        match self {
            SettingsError::Db(d) => String::from_str("database error: ").concat(d.as_str()),
            SettingsError::NotFound(k) => String::from_str("key not found: ").concat(k.as_str()),
            SettingsError::Serialization(e) => {
                let m = String::from_str("serialization error: ").concat(json_error_text(e).as_str());
                assert(m@.subrange(0, "serialization error: "@.len() as int) =~= "serialization error: "@);
                m
            },
        }
    }
}

} // verus!
