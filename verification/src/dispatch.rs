//! Running SQL that the caller wrote.
//!
//! The text is executed as it stands, with nothing bound and nothing
//! escaped: whoever can call this can do to the database whatever SQL can.
//! That is what it is for. The typed operations are the guarded way in.
//!
//! How a statement is run follows from its first word alone, by the rule
//! of [`crate::classify`]: a query that begins with another word than
//! `SELECT` is run as a write and its rows are not read. A statement that
//! reads is expected to give rows of four columns in the order id, name,
//! age, major; a row of another shape makes no student, by the rule of
//! [`crate::shape`], and the call fails with it.

use crate::classify::{classify, is_read, QueryKind};
use crate::command::Command;
use crate::error::{ErrorKind, StoreError};
use crate::gateway::{fetch, run_batch};
use crate::report::{confirm, tabulate, Report, ReportView};
use vstd::prelude::*;

verus! {

/// The confirmation of a statement that was run as a batch.
pub const QUERY_EXECUTED: &'static str = "Query executed successfully.";

/// Runs `sql` as it stands.
///
/// What goes to the engine is [`Command::raw`] of `sql`: the text as the
/// caller wrote it. Trimming and upper case serve only to tell how it is
/// run. A statement that counts as a read is prepared and queried: the
/// report holds the students in its rows and their table. Any other text is
/// run as a batch, one statement after another with no promise that all or
/// none take effect, and the report is the confirmation. Either way a
/// failure comes back sorted into its class, with no report.
pub fn execute_query(conn: &rusqlite::Connection, sql: &str) -> (result: Result<Report, StoreError>)
    ensures
        is_read(sql@) ==> (result matches Ok(report) ==> report@.is_listing()),
        !is_read(sql@) ==> (result matches Ok(report) ==> report@ == ReportView::confirmed(
            QUERY_EXECUTED@,
        )),
        result matches Err(error) ==> error.kind != ErrorKind::Validation,
{
    let command = Command::raw(sql);
    match classify(sql) {
        QueryKind::Read => tabulate(fetch(conn, command.sql.as_str(), &command.params)),
        QueryKind::Write => confirm(run_batch(conn, command.sql.as_str()), QUERY_EXECUTED),
    }
}

} // verus!
