//! The typed operations on student records. Each one sends a fixed
//! statement with its values bound to placeholders; an update also names a
//! column, which is checked against the closed list before any text is
//! made.

use crate::command::{is_updatable, parse_column, Command};
use crate::error::{unknown_column, unknown_column_message, ErrorKind, StoreError, StoreErrorView};
use crate::report::{confirm, tabulate, Report, ReportView};
use crate::gateway::{fetch, run};
use vstd::prelude::*;

verus! {

/// The confirmation of [`create_student`].
pub const STUDENT_ADDED: &'static str = "Student added successfully.";

/// The confirmation of [`update_student`].
pub const STUDENT_UPDATED: &'static str = "Student information updated successfully.";

/// The confirmation of [`delete_student`].
pub const STUDENT_DELETED: &'static str = "Student deleted successfully.";

/// Inserts one student.
///
/// The engine decides: it refuses an id that is taken. Where it accepts,
/// the report is the confirmation; where it refuses, the error is the
/// engine's, sorted into its class, and nothing is confirmed.
pub fn create_student(
    conn: &rusqlite::Connection,
    id: i32,
    name: &str,
    age: i32,
    major: &str,
) -> (result: Result<Report, StoreError>)
    ensures
        result matches Ok(report) ==> report@ == ReportView::confirmed(STUDENT_ADDED@),
        result matches Err(error) ==> error.kind != ErrorKind::Validation,
{
    let command = Command::insert(id, name, age, major);
    confirm(run(conn, command.sql.as_str(), &command.params), STUDENT_ADDED)
}

/// Reads the student with `id`.
///
/// Where the engine answers and every row makes a student, the report
/// holds them and their table; a table of no rows, the header alone, is a
/// success. Where the engine fails, the error is the engine's, sorted into
/// its class; where a row makes no student, the read fails as malformed.
pub fn read_student(conn: &rusqlite::Connection, id: i32) -> (result: Result<Report, StoreError>)
    ensures
        result matches Ok(report) ==> report@.is_listing(),
        result matches Err(error) ==> error.kind != ErrorKind::Validation,
{
    let command = Command::select_one(id);
    tabulate(fetch(conn, command.sql.as_str(), &command.params))
}

/// Reads every student, in the order in which the engine yields them.
///
/// Where the engine answers and every row makes a student, the report
/// holds them and their table. Where the engine fails, the error is the
/// engine's, sorted into its class; where a row makes no student, the read
/// fails as malformed.
pub fn read_all_students(conn: &rusqlite::Connection) -> (result: Result<Report, StoreError>)
    ensures
        result matches Ok(report) ==> report@.is_listing(),
        result matches Err(error) ==> error.kind != ErrorKind::Validation,
{
    let command = Command::select_all();
    tabulate(fetch(conn, command.sql.as_str(), &command.params))
}

/// Sets one column of the student with `id` to `value`.
///
/// `column` must spell one of `name`, `age`, `major` exactly. Any other
/// text is refused with a `Validation` error before a statement exists, so
/// nothing of it reaches the engine. For a column of the list the engine
/// decides; a statement that ran is confirmed whether or not a row had that
/// id.
pub fn update_student(
    conn: &rusqlite::Connection,
    id: i32,
    column: &str,
    value: &str,
) -> (result: Result<Report, StoreError>)
    ensures
        !is_updatable(column@) ==> result is Err && result->Err_0@ == (StoreErrorView {
            kind: ErrorKind::Validation,
            message: unknown_column_message(column@),
        }),
        is_updatable(column@) ==> (result matches Ok(report) ==> report@ == ReportView::confirmed(
            STUDENT_UPDATED@,
        )),
        is_updatable(column@) ==> (result matches Err(error) ==> error.kind != ErrorKind::Validation),
{
    match parse_column(column) {
        Some(known) => {
            let command = Command::update(id, known, value);
            confirm(run(conn, command.sql.as_str(), &command.params), STUDENT_UPDATED)
        },
        None => Err(unknown_column(column)),
    }
}

/// Deletes the student with `id`.
///
/// Where the engine ran the statement the report is the confirmation,
/// whether or not a row had that id; where it failed, the error is the
/// engine's, sorted into its class.
pub fn delete_student(conn: &rusqlite::Connection, id: i32) -> (result: Result<Report, StoreError>)
    ensures
        result matches Ok(report) ==> report@ == ReportView::confirmed(STUDENT_DELETED@),
        result matches Err(error) ==> error.kind != ErrorKind::Validation,
{
    let command = Command::delete(id);
    confirm(run(conn, command.sql.as_str(), &command.params), STUDENT_DELETED)
}

} // verus!
