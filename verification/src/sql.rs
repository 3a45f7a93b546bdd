//! The SQLite connection, statements and result rows, with the few calls of
//! `rusqlite` that the library makes. What a statement reads or writes
//! depends on the database file, which other connections share, so no
//! contract here says what the database holds; the rows a result set gives
//! are named by `rows_left`, and the verified callers decide on every
//! outcome.

use vstd::prelude::*;

verus! {

#[verifier::external_type_specification]
#[verifier::external_body]
pub struct ExConnection(rusqlite::Connection);

#[verifier::external_type_specification]
#[verifier::external_body]
pub struct ExStatement<'conn>(rusqlite::Statement<'conn>);

#[verifier::external_type_specification]
#[verifier::external_body]
pub struct ExRows<'stmt>(rusqlite::Rows<'stmt>);

#[verifier::external_type_specification]
#[verifier::external_body]
pub struct ExSqlError(rusqlite::Error);

/// A value bound to a numbered placeholder (`?1`, `?2`, ...) of a statement.
pub enum SqlParam {
    Int(i64),
    Text(String),
}

/// The type under which a result column is read.
#[derive(Debug, Clone, Copy, PartialEq, Eq, Structural)]
pub enum ColumnKind {
    Int,
    Text,
}

/// A column value read from a result row.
pub enum Cell {
    Int(i64),
    Text(String),
}

/// `p` binds the text `s`.
pub open spec fn binds_text(p: SqlParam, s: Seq<char>) -> bool {
    p matches SqlParam::Text(t) && t@ == s
}

/// `c` was read under the column type `k`.
pub open spec fn cell_has_kind(c: Cell, k: ColumnKind) -> bool {
    match c {
        Cell::Int(_) => k == ColumnKind::Int,
        Cell::Text(_) => k == ColumnKind::Text,
    }
}

/// The cells of a row were read under the column types `kinds`, in order.
pub open spec fn row_has_kinds(cells: Seq<Cell>, kinds: Seq<ColumnKind>) -> bool {
    &&& cells.len() == kinds.len()
    &&& forall|i: int| 0 <= i < cells.len() ==> #[trigger] cell_has_kind(cells[i], kinds[i])
}

/// The text held by a text cell.
pub open spec fn cell_text(c: Cell) -> Seq<char> {
    match c {
        Cell::Text(s) => s@,
        Cell::Int(_) => Seq::empty(),
    }
}

/// The integer held by an integer cell.
pub open spec fn cell_int(c: Cell) -> i64 {
    match c {
        Cell::Int(n) => n,
        Cell::Text(_) => 0,
    }
}

/// Opens (creating it if need be) the database file at `path`, through
/// `rusqlite::Connection::open`. Whether it succeeds depends on the file
/// system: nothing is stated of the result.
#[verifier::external_body]
pub(crate) fn connect(path: &str) -> (r: Result<rusqlite::Connection, rusqlite::Error>) {
    rusqlite::Connection::open(path)
}

/// Opens the existing database file at `path` for reading only, through
/// `rusqlite::Connection::open_with_flags` with `SQLITE_OPEN_READ_ONLY` (and
/// URI names, no per-connection mutex, as `open` has). Whether it succeeds
/// depends on the file system: nothing is stated of the result.
#[verifier::external_body]
pub(crate) fn connect_readonly(path: &str) -> (r: Result<rusqlite::Connection, rusqlite::Error>) {
    rusqlite::Connection::open_with_flags(
        path,
        rusqlite::OpenFlags::SQLITE_OPEN_READ_ONLY | rusqlite::OpenFlags::SQLITE_OPEN_URI
            | rusqlite::OpenFlags::SQLITE_OPEN_NO_MUTEX,
    )
}

/// Runs each statement of `sql` in turn, through
/// `rusqlite::Connection::execute_batch`. Nothing is stated of the result,
/// which depends on the database.
#[verifier::external_body]
pub(crate) fn execute_batch(conn: &rusqlite::Connection, sql: &str) -> (r: Result<
    (),
    rusqlite::Error,
>) {
    conn.execute_batch(sql)
}

/// Runs the single statement `sql` with `params` bound to `?1`, `?2`, ...
/// in order (integers as SQLite integers, texts as SQLite text), through
/// `rusqlite::Connection::execute`. Nothing is stated of the result, which
/// depends on the database.
#[verifier::external_body]
pub(crate) fn execute(conn: &rusqlite::Connection, sql: &str, params: &[SqlParam]) -> (r: Result<
    usize,
    rusqlite::Error,
>) {
    conn.execute(
        sql,
        rusqlite::params_from_iter(
            params.iter().map(
                |p| match p {
                    SqlParam::Int(n) => rusqlite::types::Value::Integer(*n),
                    SqlParam::Text(s) => rusqlite::types::Value::Text(s.clone()),
                },
            ),
        ),
    )
}

/// Compiles `sql` into a statement, through `rusqlite::Connection::prepare`.
/// Nothing is stated of the result, which depends on the database schema.
#[verifier::external_body]
pub(crate) fn prepare<'conn>(conn: &'conn rusqlite::Connection, sql: &str) -> (r: Result<
    rusqlite::Statement<'conn>,
    rusqlite::Error,
>) {
    conn.prepare(sql)
}

/// Binds `params` to `?1`, `?2`, ... in order and starts the query, through
/// `rusqlite::Statement::query`. Nothing is stated of the result.
#[verifier::external_body]
pub(crate) fn query<'stmt, 'conn>(
    stmt: &'stmt mut rusqlite::Statement<'conn>,
    params: &[SqlParam],
) -> (r: Result<rusqlite::Rows<'stmt>, rusqlite::Error>) {
    stmt.query(
        rusqlite::params_from_iter(
            params.iter().map(
                |p| match p {
                    SqlParam::Int(n) => rusqlite::types::Value::Integer(*n),
                    SqlParam::Text(s) => rusqlite::types::Value::Text(s.clone()),
                },
            ),
        ),
    )
}

/// The rows that a result set has yet to give, in the order it gives them,
/// each as the values of its columns (integers and texts). What they are
/// depends on the database; the trusted items below say how stepping
/// through them moves along this sequence.
pub uninterp spec fn rows_left(rows: &rusqlite::Rows<'_>) -> Seq<Seq<Cell>>;

/// Steps to the next result row, through `rusqlite::Rows::next`, and reads
/// its columns `0..kinds.len()` with `rusqlite::Row::get`, column `i` as an
/// `i64` or a `String` as `kinds[i]` asks. `Ok(None)` when the rows are
/// exhausted. A row that comes back is the first of the rows left, read
/// under the asked types, and the rows left move on by one; when none comes
/// back, none was left. Nothing is stated after an error.
#[verifier::external_body]
pub(crate) fn next_row(rows: &mut rusqlite::Rows<'_>, kinds: &[ColumnKind]) -> (r: Result<
    Option<Vec<Cell>>,
    rusqlite::Error,
>)
    ensures
        r matches Ok(Some(cells)) ==> {
            &&& row_has_kinds(cells@, kinds@)
            &&& rows_left(old(rows)).len() > 0
            &&& rows_left(old(rows))[0].len() >= kinds@.len()
            &&& cells@ == rows_left(old(rows))[0].take(kinds@.len() as int)
            &&& rows_left(final(rows)) == rows_left(old(rows)).drop_first()
        },
        r matches Ok(None) ==> rows_left(old(rows)).len() == 0,
{
    match rows.next()? {
        None => Ok(None),
        Some(row) => {
            let mut cells = Vec::new();
            for (i, kind) in kinds.iter().enumerate() {
                cells.push(
                    match kind {
                        ColumnKind::Int => Cell::Int(row.get(i)?),
                        ColumnKind::Text => Cell::Text(row.get(i)?),
                    },
                );
            }
            Ok(Some(cells))
        },
    }
}

/// Runs a query and reads column 0 of its first row as `kind` asks, through
/// `rusqlite::Statement::query_row` (an error `QueryReturnedNoRows` when
/// there is no row). What is stated is that a cell that comes back is of
/// the asked type.
#[verifier::external_body]
pub(crate) fn query_single(
    stmt: &mut rusqlite::Statement<'_>,
    params: &[SqlParam],
    kind: ColumnKind,
) -> (r: Result<Cell, rusqlite::Error>)
    ensures
        r matches Ok(c) ==> cell_has_kind(c, kind),
{
    let values: Vec<rusqlite::types::Value> = params.iter().map(
        |p| match p {
            SqlParam::Int(n) => rusqlite::types::Value::Integer(*n),
            SqlParam::Text(s) => rusqlite::types::Value::Text(s.clone()),
        },
    ).collect();
    match kind {
        ColumnKind::Int => stmt.query_row(rusqlite::params_from_iter(values), |row| row.get(0)).map(Cell::Int),
        ColumnKind::Text => stmt.query_row(rusqlite::params_from_iter(values), |row| row.get(0)).map(Cell::Text),
    }
}

/// Whether `e` is `rusqlite::Error::QueryReturnedNoRows`. The error is
/// opaque here, so nothing is stated of the answer.
#[verifier::external_body]
pub(crate) fn is_no_rows(e: &rusqlite::Error) -> (r: bool) {
    matches!(e, rusqlite::Error::QueryReturnedNoRows)
}

/// The message of `e`, through its `Display` impl. The error is opaque
/// here, so nothing is stated of the text.
#[verifier::external_body]
pub(crate) fn error_text(e: &rusqlite::Error) -> (r: String) {
    e.to_string()
}

/// `prefix` followed by the message of `e`.
pub(crate) fn prefixed_error(prefix: &str, e: &rusqlite::Error) -> (m: String)
    ensures
        prefix@.is_prefix_of(m@),
{
    let text = error_text(e);
    let m = String::from_str(prefix).concat(text.as_str());
    assert(m@.subrange(0, prefix@.len() as int) =~= prefix@);
    m
}

} // verus!
