//! The calls into rusqlite, the SQLite driver. Each function here hands its
//! arguments to one method of the driver and returns what came back, values
//! as SQLite holds them. Their bodies are not verified, and none promises
//! anything about the outcome, which depends on the database that the
//! connection is open on.

use crate::shape::Cell;
use crate::student::Param;
use rusqlite::types::{Value, ValueRef};
use vstd::prelude::*;

verus! {

/// A connection to a SQLite database, opened by the caller.
#[verifier::external_type_specification]
#[verifier::external_body]
pub struct ExConnection(rusqlite::Connection);

/// A statement that the engine has compiled on a connection.
#[verifier::external_type_specification]
#[verifier::external_body]
pub struct ExPrepared<'conn>(rusqlite::Statement<'conn>);

/// The driver's error.
#[verifier::external_type_specification]
#[verifier::external_body]
pub struct ExFailure(rusqlite::Error);

/// `rusqlite::Connection::execute`: compiles the single statement `sql`,
/// binds `params` to its placeholders in order and runs it. On success the
/// driver reports how many rows the statement changed; nothing is claimed
/// about whether the call succeeds or about that number.
#[verifier::external_body]
pub(crate) fn execute(
    conn: &rusqlite::Connection,
    sql: &str,
    params: &Vec<Param>,
) -> (outcome: Result<usize, rusqlite::Error>) {
    let values = params.iter().map(|p| match p {
        Param::Integer(n) => Value::Integer(i64::from(*n)),
        Param::Text(t) => Value::Text(t.clone()),
    });
    conn.execute(sql, rusqlite::params_from_iter(values))
}

/// `rusqlite::Connection::execute_batch`: runs the statements of `sql` one
/// after another, without parameters. Nothing is claimed about the outcome.
#[verifier::external_body]
pub(crate) fn execute_batch(
    conn: &rusqlite::Connection,
    sql: &str,
) -> (outcome: Result<(), rusqlite::Error>) {
    conn.execute_batch(sql)
}

/// `rusqlite::Connection::prepare`: compiles `sql` on the connection. Nothing
/// is claimed about the outcome.
#[verifier::external_body]
pub(crate) fn prepare<'conn>(
    conn: &'conn rusqlite::Connection,
    sql: &str,
) -> (outcome: Result<rusqlite::Statement<'conn>, rusqlite::Error>) {
    conn.prepare(sql)
}

/// `rusqlite::Statement::query_map`: binds `params`, runs the statement and
/// hands out every row as the values that `rusqlite::Row::get_ref` gives for
/// its columns, as many as `rusqlite::Statement::column_count` counts.
/// Nothing is decoded here, and nothing is claimed about which rows come
/// back.
#[verifier::external_body]
pub(crate) fn query_rows(
    mut statement: rusqlite::Statement<'_>,
    params: &Vec<Param>,
) -> (outcome: Result<Vec<Vec<Cell>>, rusqlite::Error>) {
    let values = params.iter().map(|p| match p {
        Param::Integer(n) => Value::Integer(i64::from(*n)),
        Param::Text(t) => Value::Text(t.clone()),
    });
    let rows = statement.query_map(rusqlite::params_from_iter(values), |row| {
        (0..row.as_ref().column_count()).map(|at| Ok(match row.get_ref(at)? {
            ValueRef::Null => Cell::Null,
            ValueRef::Integer(n) => Cell::Integer(n),
            ValueRef::Real(_) => Cell::Real,
            ValueRef::Text(bytes) => Cell::Text(bytes.to_vec()),
            ValueRef::Blob(_) => Cell::Blob,
        })).collect()
    })?;
    rows.collect()
}

/// `rusqlite::Error::sqlite_error`, and of what it gives the field
/// `extended_code`: the engine's extended result code where the failure is
/// one that SQLite reported, `None` for every other failure of the driver.
#[verifier::external_body]
pub(crate) fn engine_code(failure: &rusqlite::Error) -> (code: Option<i32>) {
    failure.sqlite_error().map(|e| e.extended_code)
}

/// `to_string` on `rusqlite::Error`: the text that the driver's `Display`
/// writes for the failure. Nothing is claimed about it.
#[verifier::external_body]
pub(crate) fn describe(failure: &rusqlite::Error) -> (message: String) {
    failure.to_string()
}

} // verus!
