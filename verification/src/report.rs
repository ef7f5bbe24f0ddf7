//! What an operation hands back for the caller to print.

use crate::error::StoreError;
use crate::render::{header_line, render_table, student_line, table_lines};
use crate::student::{records, Student, StudentRecord};
use crate::text::texts;
use vstd::prelude::*;
use vstd::string::*;

verus! {

/// The result of an operation that succeeded.
#[derive(Debug, Clone, PartialEq, Eq)]
pub enum Report {
    /// A statement ran and nothing was read back. `message` says so.
    Confirmation { message: String },
    /// Students were read. `lines` is their table, header first.
    Table { students: Vec<Student>, lines: Vec<String> },
}

/// What a [`Report`] stands for in contracts.
pub enum ReportView {
    Confirmation { message: Seq<char> },
    Table { students: Seq<StudentRecord>, lines: Seq<Seq<char>> },
}

impl View for Report {
    type V = ReportView;

    open spec fn view(&self) -> ReportView {
        match self {
            Report::Confirmation { message } => ReportView::Confirmation { message: message@ },
            Report::Table { students, lines } => ReportView::Table {
                students: records(students@),
                lines: texts(lines@),
            },
        }
    }
}

impl ReportView {
    /// The report of a statement that ran, with its confirmation.
    pub open spec fn confirmed(message: Seq<char>) -> ReportView {
        ReportView::Confirmation { message }
    }

    /// The report of a read that gave `students`, with their table.
    pub open spec fn listing(students: Seq<StudentRecord>) -> ReportView {
        ReportView::Table { students, lines: table_lines(students) }
    }

    /// Whether the report holds students together with their own table.
    pub open spec fn is_listing(self) -> bool {
        self matches ReportView::Table { students, lines } && lines == table_lines(students)
    }

    /// The lines to print: the confirmation alone, or the table.
    pub open spec fn text(self) -> Seq<Seq<char>> {
        match self {
            ReportView::Confirmation { message } => seq![message],
            ReportView::Table { students, lines } => lines,
        }
    }
}

impl Report {
    /// The report of a statement that ran.
    pub fn confirmation(message: &str) -> (report: Report)
        ensures
            report@ == ReportView::confirmed(message@),
    {
        Report::Confirmation { message: String::from_str(message) }
    }

    /// The report of a read: the students and their rendered table.
    pub fn table(students: Vec<Student>) -> (report: Report)
        ensures
            report@ == ReportView::listing(records(students@)),
    {
        let lines = render_table(&students);
        Report::Table { students, lines }
    }

    /// The lines to print for this report.
    pub fn into_lines(self) -> (lines: Vec<String>)
        ensures
            texts(lines@) == self@.text(),
    {
        match self {
            Report::Confirmation { message } => {
                let mut lines: Vec<String> = Vec::new();
                lines.push(message);
                lines
            },
            Report::Table { students, lines } => lines,
        }
    }
}

/// What an operation that reads nothing back reports for an outcome of the
/// engine. The value of a success, the number of rows changed, plays no
/// part: a statement that ran is confirmed.
pub open spec fn write_result<T>(outcome: Result<T, StoreError>, message: Seq<char>) -> Result<
    ReportView,
    StoreError,
> {
    match outcome {
        Ok(_) => Ok(ReportView::confirmed(message)),
        Err(error) => Err(error),
    }
}

/// What an operation that reads reports for an outcome of the engine: the
/// students it gave and their table, or its failure and nothing else.
pub open spec fn read_result(outcome: Result<Vec<Student>, StoreError>) -> Result<
    ReportView,
    StoreError,
> {
    match outcome {
        Ok(students) => Ok(ReportView::listing(records(students@))),
        Err(error) => Err(error),
    }
}

/// What a result stands for in contracts: the report by its view, the error
/// as it is.
pub open spec fn result_view(result: Result<Report, StoreError>) -> Result<ReportView, StoreError> {
    match result {
        Ok(report) => Ok(report@),
        Err(error) => Err(error),
    }
}

/// Closes an operation that reads nothing back. Where the engine ran the
/// statement the caller gets `message`, however many rows the statement
/// touched: a statement that matched no row has succeeded too. A failure is
/// handed on as it is, without a confirmation.
pub fn confirm<T>(outcome: Result<T, StoreError>, message: &str) -> (result: Result<Report, StoreError>)
    ensures
        result_view(result) == write_result(outcome, message@),
{
    match outcome {
        Ok(_) => Ok(Report::confirmation(message)),
        Err(error) => Err(error),
    }
}

/// Closes an operation that reads. Where the engine gave rows, the caller
/// gets them with their table, in the engine's order; with no rows the table
/// is the header alone. A failure is handed on as it is, without any line.
pub fn tabulate(outcome: Result<Vec<Student>, StoreError>) -> (result: Result<Report, StoreError>)
    ensures
        result_view(result) == read_result(outcome),
{
    match outcome {
        Ok(students) => Ok(Report::table(students)),
        Err(error) => Err(error),
    }
}

/// A statement that changed no row is confirmed like one that changed some:
/// updating or deleting a student that is not there is no failure.
pub proof fn no_row_is_no_failure(changed: usize, message: Seq<char>)
    ensures
        write_result(Ok::<usize, StoreError>(changed), message) == write_result(
            Ok::<usize, StoreError>(0),
            message,
        ),
        write_result(Ok::<usize, StoreError>(0), message) == Ok::<ReportView, StoreError>(
            ReportView::confirmed(message),
        ),
{
}

/// A read that finds nothing succeeds, and its table is the header alone.
pub proof fn nothing_found_is_header_only(found: Vec<Student>)
    requires
        found@.len() == 0,
    ensures
        read_result(Ok(found)) is Ok,
        read_result(Ok(found))->Ok_0.is_listing(),
        read_result(Ok(found))->Ok_0.text() == seq![header_line()],
{
}

/// A read prints one line for each student it found, after the header, in
/// the order found.
pub proof fn every_student_has_its_line(found: Vec<Student>)
    ensures
        read_result(Ok(found)) is Ok,
        read_result(Ok(found))->Ok_0.text().len() == found@.len() + 1,
        read_result(Ok(found))->Ok_0.text()[0] == header_line(),
        forall|i: int|
            0 <= i < found@.len() ==> #[trigger] read_result(Ok(found))->Ok_0.text()[i + 1]
                == student_line(found@[i]@),
{
}

/// A failure is never dressed up: whatever the operation, the error that
/// went in comes out, and no confirmation or table with it.
pub proof fn failure_passes_through(error: StoreError, message: Seq<char>)
    ensures
        write_result(Err::<usize, StoreError>(error), message) == Err::<ReportView, StoreError>(error),
        read_result(Err(error)) == Err::<ReportView, StoreError>(error),
{
}

} // verus!
