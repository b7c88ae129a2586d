use vstd::prelude::*;

verus! {

// ---------------------------------------------------------------------------
// The trusted boundary to the embedded database engine.
//
// Everything below hands a statement's text to rusqlite and converts what
// comes back into plain values; nothing here decides anything.  The rest of
// the crate builds the statement text and interprets the results, and is
// verified against the contracts of these items.
// ---------------------------------------------------------------------------

/// The connection handle of the embedded database engine, opaque to the
/// verified code.
#[verifier::external_type_specification]
#[verifier::external_body]
pub struct ExConnection(rusqlite::Connection);

/// The database engine's error value, opaque to the verified code; it is
/// turned into text by `sqlite_error_text` and mapped to this crate's own
/// error kind by verified code.
#[verifier::external_type_specification]
#[verifier::external_body]
pub struct ExSqliteError(rusqlite::Error);

/// Relies on rusqlite::Connection::open: opens (creating it if missing) a
/// file-backed database at the given path, or reports why it could not.
#[verifier::external_body]
pub(crate) fn open_file_connection(path: &str) -> Result<rusqlite::Connection, rusqlite::Error> {
    rusqlite::Connection::open(path)
}

/// Relies on rusqlite::Connection::open_in_memory: opens a fresh, empty
/// in-memory database.
#[verifier::external_body]
pub(crate) fn open_memory_connection() -> Result<rusqlite::Connection, rusqlite::Error> {
    rusqlite::Connection::open_in_memory()
}

/// Relies on rusqlite::Connection::prepare and rusqlite::Statement::exists:
/// runs the given query without parameters and reports whether it returned
/// at least one row.  What it answers depends on the database's state, so
/// nothing more is assumed of the outcome.
#[verifier::external_body]
pub(crate) fn query_returns_rows(
    conn: &rusqlite::Connection,
    sql: &str,
) -> Result<bool, rusqlite::Error> {
    match conn.prepare(sql) {
        Ok(mut statement) => statement.exists([]),
        Err(e) => Err(e),
    }
}

/// Relies on rusqlite::Connection::execute: runs a single statement without
/// parameters and returns the number of rows it changed.  Whether it succeeds
/// and how many rows it touches depend on the database's state, so nothing
/// more is assumed of the outcome.
#[verifier::external_body]
pub(crate) fn execute_sql(
    conn: &rusqlite::Connection,
    sql: &str,
) -> Result<usize, rusqlite::Error> {
    conn.execute(sql, [])
}

/// Relies on rusqlite::Connection::prepare, rusqlite::Statement::query_map
/// and rusqlite::Row::get: prepares the zero-row catalog probe, so that a
/// name the engine cannot resolve fails as the engine reports it, and then
/// reads each column's name and declared type, in order, as row values of
/// the schema pragma.  The engine leaves the type empty for a column
/// declared without one.  Row-value reads report text that is not valid
/// UTF-8 as an error; the statement-metadata accessors (Statement::columns,
/// Statement::column_name) would panic on it, which this library's no-panic
/// promise does not allow.
#[verifier::external_body]
pub(crate) fn probe_table_columns(
    conn: &rusqlite::Connection,
    probe_sql: &str,
    pragma_sql: &str,
) -> Result<Vec<(String, String)>, rusqlite::Error> {
    let probe = conn.prepare(probe_sql);
    if let Err(e) = probe {
        return Err(e);
    }
    let mut statement = conn.prepare(pragma_sql)?;
    let info = statement
        .query_map([], |row| Ok((row.get::<usize, String>(1)?, row.get::<usize, String>(2)?)))?
        .collect();
    info
}

/// Relies on the Display impl of rusqlite::Error: describes a failure as
/// text for the operator.
#[verifier::external_body]
pub(crate) fn sqlite_error_text(e: &rusqlite::Error) -> String {
    format!("{}", e)
}

} // verus!
