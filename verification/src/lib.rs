//! A data-access layer over one table of student records kept in SQLite.
//!
//! The typed operations ([`create_student`], [`read_student`],
//! [`read_all_students`], [`update_student`], [`delete_student`]) and the two
//! that make and drop the table ([`create_table`], [`delete_table`]) each send
//! one fixed statement with its values bound to placeholders.
//! [`execute_query`] runs SQL that the caller wrote, as it stands. Every one
//! of them returns a [`Report`] with the text for the caller to print, or a
//! [`StoreError`] sorted into one of four classes. Nothing here prints, and
//! an error never comes with a line of output.
//!
//! What is proved, and what is not: the statements and their parameters,
//! the list of columns that an update may name, the rule that tells a read
//! from a write, the reading of a student from the values of a row, the
//! table that is printed and the sorting of failures are verified against
//! their contracts. What SQLite does with a statement is
//! not: the calls into the driver stand in [`engine`], and the contracts of
//! the operations say of their outcome only what holds whatever the engine
//! answers.

pub mod classify;
pub mod command;
pub mod dispatch;
pub mod engine;
pub mod error;
pub mod gateway;
pub mod records;
pub mod render;
pub mod report;
pub mod shape;
pub mod store;
pub mod student;
pub mod text;

pub use crate::dispatch::execute_query;
pub use crate::error::{ErrorKind, StoreError};
pub use crate::records::{
    create_student, delete_student, read_all_students, read_student, update_student,
};
pub use crate::report::Report;
pub use crate::store::{create_table, delete_table};
pub use crate::student::Student;
