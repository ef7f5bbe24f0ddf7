//! The way to the engine and back: a command goes out as it was built, and
//! what the driver answers comes back with its error sorted into a class.
//! What the engine does with a command depends on the database, so nothing
//! here promises success; each function says what holds of any answer.

use crate::engine::{describe, engine_code, execute, execute_batch, prepare, query_rows};
use crate::error::{engine_failure, ErrorKind, StoreError};
use crate::shape::{accept_rows, every_flaw_is_malformed};
use crate::student::{Param, Student};
use vstd::prelude::*;

verus! {

/// The error for a failure that the driver handed back: its class follows
/// from the engine's result code, its message is the driver's.
pub(crate) fn driver_failure(failure: &rusqlite::Error) -> (error: StoreError)
    ensures
        error.kind != ErrorKind::Validation,
{
    let code = engine_code(failure);
    let message = describe(failure);
    engine_failure(code, message)
}

/// Replaces the driver's error in an outcome by the store's.
pub(crate) fn settle<T>(outcome: Result<T, rusqlite::Error>) -> (settled: Result<T, StoreError>)
    ensures
        outcome matches Ok(value) ==> settled == Ok::<T, StoreError>(value),
        outcome is Err ==> settled is Err && settled->Err_0.kind != ErrorKind::Validation,
{
    match outcome {
        Ok(value) => Ok(value),
        Err(failure) => Err(driver_failure(&failure)),
    }
}

/// Runs one statement that reads nothing back, with `params` bound to its
/// placeholders, and gives the number of rows that it changed.
pub(crate) fn run(
    conn: &rusqlite::Connection,
    sql: &str,
    params: &Vec<Param>,
) -> (outcome: Result<usize, StoreError>)
    ensures
        outcome matches Err(error) ==> error.kind != ErrorKind::Validation,
{
    settle(execute(conn, sql, params))
}

/// Runs the statements of `sql` one after another, with nothing bound.
pub(crate) fn run_batch(conn: &rusqlite::Connection, sql: &str) -> (outcome: Result<(), StoreError>)
    ensures
        outcome matches Err(error) ==> error.kind != ErrorKind::Validation,
{
    settle(execute_batch(conn, sql))
}

/// Compiles one statement, queries it with `params` bound and reads a
/// student from every row. A failure at any step, a row that makes no
/// student among them, comes back alone: no student is handed out beside an
/// error.
pub(crate) fn fetch(
    conn: &rusqlite::Connection,
    sql: &str,
    params: &Vec<Param>,
) -> (outcome: Result<Vec<Student>, StoreError>)
    ensures
        outcome matches Err(error) ==> error.kind != ErrorKind::Validation,
{
    match settle(prepare(conn, sql)) {
        Ok(prepared) => match settle(query_rows(prepared, params)) {
            Ok(rows) => {
                proof {
                    every_flaw_is_malformed(rows@);
                }
                accept_rows(&rows)
            },
            Err(error) => Err(error),
        },
        Err(error) => Err(error),
    }
}

} // verus!
