//! The shape of a row that is read as a student: exactly four columns, an
//! integer, a text, an integer and a text, in the order id, name, age,
//! major. The driver hands every row out as the values that SQLite holds;
//! whether they make a student is decided here. A row of another width, a
//! value of another type, an integer that a field cannot hold and text that
//! is not UTF-8 each fail the read: nothing is cut off and nothing is
//! converted.

use crate::error::{
    bad_text, bad_text_message, malformed, out_of_range, out_of_range_message, wrong_shape,
    wrong_shape_message, wrong_type, wrong_type_message, ErrorKind, StoreError, StoreErrorView,
};
use crate::student::{records, Student, StudentRecord};
use vstd::prelude::*;
use vstd::string::*;
use vstd::utf8::{decode_utf8, encode_utf8, valid_utf8};

verus! {

/// The number of columns of a student.
pub const STUDENT_COLUMNS: usize = 4;

/// One value of a row, of one of SQLite's five types. Text is held as the
/// bytes that SQLite stores, which need not be UTF-8; of a real number and
/// of a blob only the type is kept, since no field of a student holds one.
#[derive(Debug, Clone, PartialEq, Eq)]
pub enum Cell {
    Null,
    Integer(i64),
    Real,
    Text(Vec<u8>),
    Blob,
}

impl Cell {
    /// The name of the value's type.
    pub open spec fn kind_name(self) -> Seq<char> {
        match self {
            Cell::Null => "Null"@,
            Cell::Integer(_) => "Integer"@,
            Cell::Real => "Real"@,
            Cell::Text(_) => "Text"@,
            Cell::Blob => "Blob"@,
        }
    }

    /// The name of the value's type.
    pub fn kind(&self) -> (name: &'static str)
        ensures
            name@ == self.kind_name(),
    {
        match self {
            Cell::Null => "Null",
            Cell::Integer(_) => "Integer",
            Cell::Real => "Real",
            Cell::Text(_) => "Text",
            Cell::Blob => "Blob",
        }
    }
}

/// The integer field that the value in column `column` makes: an integer
/// that fits 32 bits, and nothing else.
pub open spec fn number_in(cell: Cell, column: nat) -> Result<int, StoreErrorView> {
    match cell {
        Cell::Integer(n) => if i32::MIN <= n <= i32::MAX {
            Ok(n as int)
        } else {
            Err(malformed(out_of_range_message(n as int, column)))
        },
        _ => Err(malformed(wrong_type_message(cell.kind_name(), column))),
    }
}

/// The text field that the value in column `column` makes: text that is
/// UTF-8, and nothing else.
pub open spec fn text_in(cell: Cell, column: nat) -> Result<Seq<char>, StoreErrorView> {
    match cell {
        Cell::Text(bytes) => if valid_utf8(bytes@) {
            Ok(decode_utf8(bytes@))
        } else {
            Err(malformed(bad_text_message(column)))
        },
        _ => Err(malformed(wrong_type_message(cell.kind_name(), column))),
    }
}

/// The student that a row makes, or the first thing that keeps it from
/// making one: its width, then its columns from the left.
pub open spec fn student_in(row: Seq<Cell>) -> Result<StudentRecord, StoreErrorView> {
    if row.len() != STUDENT_COLUMNS {
        Err(malformed(wrong_shape_message(row.len())))
    } else if number_in(row[0], 0) is Err {
        Err(number_in(row[0], 0)->Err_0)
    } else if text_in(row[1], 1) is Err {
        Err(text_in(row[1], 1)->Err_0)
    } else if number_in(row[2], 2) is Err {
        Err(number_in(row[2], 2)->Err_0)
    } else if text_in(row[3], 3) is Err {
        Err(text_in(row[3], 3)->Err_0)
    } else {
        Ok(
            StudentRecord {
                id: number_in(row[0], 0)->Ok_0,
                name: text_in(row[1], 1)->Ok_0,
                age: number_in(row[2], 2)->Ok_0,
                major: text_in(row[3], 3)->Ok_0,
            },
        )
    }
}

/// The students that rows make, in order, or what keeps the first row that
/// makes none from making one.
pub open spec fn students_in(rows: Seq<Vec<Cell>>) -> Result<Seq<StudentRecord>, StoreErrorView>
    decreases rows.len(),
{
    if rows.len() == 0 {
        Ok(Seq::empty())
    } else if students_in(rows.drop_last()) is Err {
        students_in(rows.drop_last())
    } else if student_in(rows.last()@) is Err {
        Err(student_in(rows.last()@)->Err_0)
    } else {
        Ok(students_in(rows.drop_last())->Ok_0.push(student_in(rows.last()@)->Ok_0))
    }
}

/// `std::str::from_utf8`: the bytes as text where they are UTF-8, and
/// `None` where they are not. The text, when there is one, consists of the
/// very bytes given.
#[verifier::external_body]
fn utf8_text(bytes: &[u8]) -> (text: Option<&str>)
    ensures
        text is Some <==> valid_utf8(bytes@),
        text matches Some(s) ==> encode_utf8(s@) == bytes@,
{
    std::str::from_utf8(bytes).ok()
}

/// Reads an integer field from the value in column `column`.
pub fn read_number(cell: &Cell, column: usize) -> (result: Result<i32, StoreError>)
    ensures
        number_in(*cell, column as nat) matches Ok(n) ==> result == Ok::<i32, StoreError>(n as i32),
        number_in(*cell, column as nat) matches Err(flaw) ==> result is Err && result->Err_0@ == flaw,
{
    match cell {
        Cell::Integer(n) => {
            if -2147483648 <= *n && *n <= 2147483647 {
                Ok(*n as i32)
            } else {
                Err(out_of_range(*n, column))
            }
        },
        _ => Err(wrong_type(cell.kind(), column)),
    }
}

/// Reads a text field from the value in column `column`.
pub fn read_text(cell: &Cell, column: usize) -> (result: Result<String, StoreError>)
    ensures
        text_in(*cell, column as nat) matches Ok(text) ==> result is Ok && result->Ok_0@ == text,
        text_in(*cell, column as nat) matches Err(flaw) ==> result is Err && result->Err_0@ == flaw,
{
    match cell {
        Cell::Text(bytes) => {
            match utf8_text(bytes.as_slice()) {
                Some(text) => {
                    proof {
                        vstd::utf8::encode_utf8_decode_utf8(text@);
                    }
                    Ok(String::from_str(text))
                },
                None => Err(bad_text(column)),
            }
        },
        _ => Err(wrong_type(cell.kind(), column)),
    }
}

/// Reads a student from a row.
pub fn decode_row(row: &Vec<Cell>) -> (result: Result<Student, StoreError>)
    ensures
        student_in(row@) matches Ok(record) ==> result is Ok && result->Ok_0@ == record,
        student_in(row@) matches Err(flaw) ==> result is Err && result->Err_0@ == flaw,
{
    if row.len() != STUDENT_COLUMNS {
        return Err(wrong_shape(row.len()));
    }
    let id = match read_number(&row[0], 0) {
        Ok(id) => id,
        Err(error) => {
            return Err(error);
        },
    };
    let name = match read_text(&row[1], 1) {
        Ok(name) => name,
        Err(error) => {
            return Err(error);
        },
    };
    let age = match read_number(&row[2], 2) {
        Ok(age) => age,
        Err(error) => {
            return Err(error);
        },
    };
    let major = match read_text(&row[3], 3) {
        Ok(major) => major,
        Err(error) => {
            return Err(error);
        },
    };
    Ok(Student { id, name, age, major })
}

/// Reads the students from the rows of an answer. Where every row makes a
/// student they come back in order; the first row that makes none fails the
/// whole read with what is wrong with it, and no student comes back.
pub fn accept_rows(rows: &Vec<Vec<Cell>>) -> (result: Result<Vec<Student>, StoreError>)
    ensures
        students_in(rows@) matches Ok(found) ==> result is Ok && records(result->Ok_0@) == found,
        students_in(rows@) matches Err(flaw) ==> result is Err && result->Err_0@ == flaw,
{
    let mut students: Vec<Student> = Vec::new();
    let mut at: usize = 0;
    assert(records(students@) =~= Seq::empty());
    while at < rows.len()
        invariant
            at <= rows.len(),
            students_in(rows@.take(at as int)) == Ok::<Seq<StudentRecord>, StoreErrorView>(
                records(students@),
            ),
        decreases rows.len() - at,
    {
        proof {
            assert(rows@.take(at + 1).drop_last() =~= rows@.take(at as int));
            later_rows_keep_the_failure(rows@, at + 1);
        }
        match decode_row(&rows[at]) {
            Ok(student) => {
                students.push(student);
                assert(records(students@) =~= students_in(rows@.take(at + 1))->Ok_0);
            },
            Err(error) => {
                return Err(error);
            },
        }
        at = at + 1;
    }
    assert(rows@.take(at as int) =~= rows@);
    Ok(students)
}

/// Whether a row holds the four fields of `student` as SQLite stores them:
/// the numbers as integers, the texts as their UTF-8 bytes.
pub open spec fn keeps(row: Seq<Cell>, student: Student) -> bool {
    &&& row.len() == STUDENT_COLUMNS
    &&& row[0] == Cell::Integer(student.id as i64)
    &&& row[1] matches Cell::Text(bytes) && bytes@ == encode_utf8(student.name@)
    &&& row[2] == Cell::Integer(student.age as i64)
    &&& row[3] matches Cell::Text(bytes) && bytes@ == encode_utf8(student.major@)
}

/// A row that holds the fields of a student reads back as that student,
/// whatever the numbers and the texts are.
pub proof fn kept_row_reads_back(row: Seq<Cell>, student: Student)
    requires
        keeps(row, student),
    ensures
        student_in(row) == Ok::<StudentRecord, StoreErrorView>(student@),
{
    vstd::utf8::encode_utf8_valid_utf8(student.name@);
    vstd::utf8::encode_utf8_decode_utf8(student.name@);
    vstd::utf8::encode_utf8_valid_utf8(student.major@);
    vstd::utf8::encode_utf8_decode_utf8(student.major@);
}

/// Rows are read one by one and accepted together or not at all. Where
/// every row makes a student, the students are those of the rows, in order;
/// where some row makes none, the failure is that of the first such row.
pub proof fn rows_are_read_one_by_one(rows: Seq<Vec<Cell>>)
    ensures
        students_in(rows) is Ok <==> forall|i: int|
            0 <= i < rows.len() ==> student_in(#[trigger] rows[i]@) is Ok,
        students_in(rows) matches Ok(found) ==> found.len() == rows.len() && forall|i: int|
            0 <= i < rows.len() ==> found[i] == student_in(#[trigger] rows[i]@)->Ok_0,
        students_in(rows) matches Err(flaw) ==> exists|i: int|
            0 <= i < rows.len() && student_in(#[trigger] rows[i]@) == Err::<
                StudentRecord,
                StoreErrorView,
            >(flaw) && forall|j: int| 0 <= j < i ==> student_in(#[trigger] rows[j]@) is Ok,
    decreases rows.len(),
{
    if rows.len() > 0 {
        let front = rows.drop_last();
        rows_are_read_one_by_one(front);
        assert forall|i: int| 0 <= i < front.len() implies front[i] == rows[i] by {}
        if students_in(front) is Err {
            let flaw = students_in(front)->Err_0;
            let i = choose|i: int|
                0 <= i < front.len() && student_in(#[trigger] front[i]@) == Err::<
                    StudentRecord,
                    StoreErrorView,
                >(flaw) && forall|j: int| 0 <= j < i ==> student_in(#[trigger] front[j]@) is Ok;
            assert(student_in(rows[i]@) == Err::<StudentRecord, StoreErrorView>(flaw));
            assert(forall|j: int| 0 <= j < i ==> student_in(#[trigger] rows[j]@) is Ok);
        } else if student_in(rows.last()@) is Err {
            let flaw = student_in(rows.last()@)->Err_0;
            let i = rows.len() - 1;
            assert(student_in(rows[i]@) == Err::<StudentRecord, StoreErrorView>(flaw));
            assert(forall|j: int| 0 <= j < i ==> student_in(#[trigger] rows[j]@) is Ok);
        }
    }
}

/// A row that makes no student is a malformed answer, whatever is wrong
/// with it.
pub proof fn every_flaw_is_malformed(rows: Seq<Vec<Cell>>)
    ensures
        students_in(rows) matches Err(flaw) ==> flaw.kind == ErrorKind::Malformed,
    decreases rows.len(),
{
    if rows.len() > 0 {
        every_flaw_is_malformed(rows.drop_last());
    }
}

/// Once the first rows fail, rows after them change nothing.
pub proof fn later_rows_keep_the_failure(rows: Seq<Vec<Cell>>, upto: int)
    requires
        0 <= upto <= rows.len(),
    ensures
        students_in(rows.take(upto)) is Err ==> students_in(rows) == students_in(rows.take(upto)),
    decreases rows.len() - upto,
{
    if upto < rows.len() {
        later_rows_keep_the_failure(rows, upto + 1);
        assert(rows.take(upto + 1).drop_last() =~= rows.take(upto));
    } else {
        assert(rows.take(upto) =~= rows);
    }
}

} // verus!
