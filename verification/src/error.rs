//! The errors that operations on the store return, and how a failure of the
//! engine is sorted into them.

use crate::text::{count_text, decimal, digits, wide_decimal_text};
use vstd::prelude::*;
use vstd::string::*;

verus! {

/// The primary result code with which SQLite reports a generic SQL error:
/// text that does not compile, or a table that is missing.
pub const SQLITE_ERROR: i32 = 1;

/// The primary result code for text or a value over the engine's size limit.
pub const SQLITE_TOOBIG: i32 = 18;

/// The primary result code for a violated constraint.
pub const SQLITE_CONSTRAINT: i32 = 19;

/// The primary result code for a value of the wrong type.
pub const SQLITE_MISMATCH: i32 = 20;

/// The primary result code for a call that the engine does not allow.
pub const SQLITE_MISUSE: i32 = 21;

/// The primary result code for a placeholder number out of range.
pub const SQLITE_RANGE: i32 = 25;

/// The classes of failure.
#[derive(Debug, Clone, Copy, PartialEq, Eq, Structural)]
pub enum ErrorKind {
    /// A record broke a rule of the table: an id that is taken, a required
    /// field that is missing.
    Constraint,
    /// The storage under the database failed or refused the operation.
    Storage,
    /// The statement does not compile or cannot run as it was called, or a
    /// row does not have the shape of a student.
    Malformed,
    /// An argument was refused before anything reached the engine.
    Validation,
}

/// A failed operation: its class and a description.
#[derive(Debug, Clone, PartialEq, Eq)]
pub struct StoreError {
    pub kind: ErrorKind,
    pub message: String,
}

/// What a [`StoreError`] stands for in contracts.
pub struct StoreErrorView {
    pub kind: ErrorKind,
    pub message: Seq<char>,
}

impl View for StoreError {
    type V = StoreErrorView;

    open spec fn view(&self) -> StoreErrorView {
        StoreErrorView { kind: self.kind, message: self.message@ }
    }
}

/// The primary result code in an extended one: its low eight bits.
pub open spec fn primary_code(extended: i32) -> i32 {
    extended & 0xff
}

/// The class of a failure that the driver reported. `code` is the engine's
/// extended result code, or `None` where the driver itself raised the
/// failure: a row that does not decode, a statement called the wrong way.
pub open spec fn failure_kind(code: Option<i32>) -> ErrorKind {
    match code {
        None => ErrorKind::Malformed,
        Some(extended) => {
            let primary = primary_code(extended);
            if primary == SQLITE_CONSTRAINT {
                ErrorKind::Constraint
            } else if primary == SQLITE_ERROR || primary == SQLITE_TOOBIG || primary == SQLITE_MISMATCH
                || primary == SQLITE_MISUSE || primary == SQLITE_RANGE {
                ErrorKind::Malformed
            } else {
                ErrorKind::Storage
            }
        },
    }
}

/// The label that [`StoreError::to_text`] puts before the message.
pub open spec fn kind_label(kind: ErrorKind) -> Seq<char> {
    match kind {
        ErrorKind::Constraint => "constraint violation: "@,
        ErrorKind::Storage => "storage failure: "@,
        ErrorKind::Malformed => "malformed statement: "@,
        ErrorKind::Validation => "invalid argument: "@,
    }
}

/// The message of the error for a column that may not be updated.
pub open spec fn unknown_column_message(column: Seq<char>) -> Seq<char> {
    "unknown column: "@ + column
}

/// The message of the error for a row of `columns` columns where a student
/// was to be read.
pub open spec fn wrong_shape_message(columns: nat) -> Seq<char> {
    "a student has 4 columns, the row has "@ + digits(columns)
}

/// The message of the error for a value of the type `found` in a column
/// that holds another type in a student.
pub open spec fn wrong_type_message(found: Seq<char>, column: nat) -> Seq<char> {
    "Invalid column type "@ + found + " at index: "@ + digits(column)
}

/// The message of the error for an integer that a student's field cannot
/// hold.
pub open spec fn out_of_range_message(value: int, column: nat) -> Seq<char> {
    "Integer "@ + decimal(value) + " out of range at index "@ + digits(column)
}

/// The message of the error for text that is not UTF-8.
pub open spec fn bad_text_message(column: nat) -> Seq<char> {
    "Invalid UTF-8 text at index: "@ + digits(column)
}

/// The view of the error for a statement or row that is malformed, with
/// the message given.
pub open spec fn malformed(message: Seq<char>) -> StoreErrorView {
    StoreErrorView { kind: ErrorKind::Malformed, message }
}

impl StoreError {
    /// The error as one line of text: the label of its class, then the
    /// message.
    pub fn to_text(&self) -> (line: String)
        ensures
            line@ == kind_label(self.kind) + self.message@,
    {
        let label = match self.kind {
            ErrorKind::Constraint => "constraint violation: ",
            ErrorKind::Storage => "storage failure: ",
            ErrorKind::Malformed => "malformed statement: ",
            ErrorKind::Validation => "invalid argument: ",
        };
        let mut line = String::from_str(label);
        line.append(self.message.as_str());
        line
    }
}

/// Sorts a failure of the driver into its class and keeps the driver's
/// description of it.
pub fn engine_failure(code: Option<i32>, message: String) -> (error: StoreError)
    ensures
        error.kind == failure_kind(code),
        error.message == message,
{
    let kind = match code {
        None => ErrorKind::Malformed,
        Some(extended) => {
            let primary = extended & 0xff;
            if primary == SQLITE_CONSTRAINT {
                ErrorKind::Constraint
            } else if primary == SQLITE_ERROR || primary == SQLITE_TOOBIG || primary == SQLITE_MISMATCH
                || primary == SQLITE_MISUSE || primary == SQLITE_RANGE {
                ErrorKind::Malformed
            } else {
                ErrorKind::Storage
            }
        },
    };
    StoreError { kind, message }
}

/// The error for a column name outside the columns that may be updated.
pub fn unknown_column(column: &str) -> (error: StoreError)
    ensures
        error@ == (StoreErrorView {
            kind: ErrorKind::Validation,
            message: unknown_column_message(column@),
        }),
{
    let mut message = String::from_str("unknown column: ");
    message.append(column);
    StoreError { kind: ErrorKind::Validation, message }
}

/// The error for a row that has another number of columns than a student.
pub fn wrong_shape(columns: usize) -> (error: StoreError)
    ensures
        error@ == malformed(wrong_shape_message(columns as nat)),
{
    let mut message = String::from_str("a student has 4 columns, the row has ");
    message.append(count_text(columns).as_str());
    StoreError { kind: ErrorKind::Malformed, message }
}

/// The error for a value of the type named `found` in the column `column`,
/// where a student holds a value of another type.
pub fn wrong_type(found: &str, column: usize) -> (error: StoreError)
    ensures
        error@ == malformed(wrong_type_message(found@, column as nat)),
{
    let mut message = String::from_str("Invalid column type ");
    message.append(found);
    message.append(" at index: ");
    message.append(count_text(column).as_str());
    StoreError { kind: ErrorKind::Malformed, message }
}

/// The error for an integer in the column `column` that a student's field
/// cannot hold.
pub fn out_of_range(value: i64, column: usize) -> (error: StoreError)
    ensures
        error@ == malformed(out_of_range_message(value as int, column as nat)),
{
    let mut message = String::from_str("Integer ");
    message.append(wide_decimal_text(value).as_str());
    message.append(" out of range at index ");
    message.append(count_text(column).as_str());
    StoreError { kind: ErrorKind::Malformed, message }
}

/// The error for text in the column `column` that is not UTF-8.
pub fn bad_text(column: usize) -> (error: StoreError)
    ensures
        error@ == malformed(bad_text_message(column as nat)),
{
    let mut message = String::from_str("Invalid UTF-8 text at index: ");
    message.append(count_text(column).as_str());
    StoreError { kind: ErrorKind::Malformed, message }
}

} // verus!
