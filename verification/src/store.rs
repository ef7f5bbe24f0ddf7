//! The life of the `students` table: created if absent, dropped if present.

use crate::command::Command;
use crate::error::{ErrorKind, StoreError};
use crate::gateway::run;
use crate::report::{confirm, Report, ReportView};
use vstd::prelude::*;

verus! {

/// The confirmation of [`create_table`].
pub const TABLE_CREATED: &'static str = "Table created successfully.";

/// The confirmation of [`delete_table`].
pub const TABLE_DELETED: &'static str = "Table deleted successfully.";

/// Creates the table unless it is there already.
///
/// Whether the engine accepts the statement depends on the database. Where
/// it does, the report is the confirmation; where it does not, the error is
/// the engine's, sorted into its class.
pub fn create_table(conn: &rusqlite::Connection) -> (result: Result<Report, StoreError>)
    ensures
        result matches Ok(report) ==> report@ == ReportView::confirmed(TABLE_CREATED@),
        result matches Err(error) ==> error.kind != ErrorKind::Validation,
{
    let command = Command::create_table();
    confirm(run(conn, command.sql.as_str(), &command.params), TABLE_CREATED)
}

/// Drops the table if it is there.
///
/// Whether the engine accepts the statement depends on the database. Where
/// it does, the report is the confirmation; where it does not, the error is
/// the engine's, sorted into its class.
pub fn delete_table(conn: &rusqlite::Connection) -> (result: Result<Report, StoreError>)
    ensures
        result matches Ok(report) ==> report@ == ReportView::confirmed(TABLE_DELETED@),
        result matches Err(error) ==> error.kind != ErrorKind::Validation,
{
    let command = Command::drop_table();
    confirm(run(conn, command.sql.as_str(), &command.params), TABLE_DELETED)
}

} // verus!
