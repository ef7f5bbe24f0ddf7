//! The one record shape of the store, and the values bound to statements.

use vstd::prelude::*;

verus! {

/// One row of the `students` table.
///
/// The table lets `age` and `major` be absent; a record does not. A row in
/// which one of them is absent makes no student, and the read that meets it
/// fails.
#[derive(Debug, Clone, PartialEq, Eq)]
pub struct Student {
    /// Primary key, chosen by the caller.
    pub id: i32,
    pub name: String,
    pub age: i32,
    pub major: String,
}

/// What a [`Student`] stands for in contracts.
pub struct StudentRecord {
    pub id: int,
    pub name: Seq<char>,
    pub age: int,
    pub major: Seq<char>,
}

impl View for Student {
    type V = StudentRecord;

    open spec fn view(&self) -> StudentRecord {
        StudentRecord { id: self.id as int, name: self.name@, age: self.age as int, major: self.major@ }
    }
}

/// The records that a vector of students stands for, in order.
pub open spec fn records(students: Seq<Student>) -> Seq<StudentRecord> {
    students.map_values(|s: Student| s@)
}

/// A value bound to a numbered placeholder of a statement.
#[derive(Debug, Clone, PartialEq, Eq)]
pub enum Param {
    Integer(i32),
    Text(String),
}

/// What a [`Param`] stands for in contracts.
pub enum ParamValue {
    Integer(int),
    Text(Seq<char>),
}

impl View for Param {
    type V = ParamValue;

    open spec fn view(&self) -> ParamValue {
        match self {
            Param::Integer(n) => ParamValue::Integer(*n as int),
            Param::Text(t) => ParamValue::Text(t@),
        }
    }
}

/// The values that a vector of parameters stands for, in order.
pub open spec fn param_values(params: Seq<Param>) -> Seq<ParamValue> {
    params.map_values(|p: Param| p@)
}

} // verus!
