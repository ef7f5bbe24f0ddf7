//! The table that every read path prints: a header and one line per
//! student, each line four left-justified cells between bars. A cell's width
//! is a minimum; a value that is wider makes its own line longer and is
//! never cut.

use crate::student::{records, Student, StudentRecord};
use crate::text::{decimal, decimal_text, pad, padded, padded_keeps_text, texts};
use vstd::prelude::*;
use vstd::string::*;

verus! {

/// The least width of the `id` cell.
pub const ID_WIDTH: usize = 3;

/// The least width of the `name` cell.
pub const NAME_WIDTH: usize = 12;

/// The least width of the `age` cell.
pub const AGE_WIDTH: usize = 3;

/// The least width of the `major` cell.
pub const MAJOR_WIDTH: usize = 6;

/// The length of a line whose four values all fit their cells.
pub const LINE_WIDTH: usize = 37;

/// One line of the table from the texts of its four cells.
pub open spec fn row_line(
    id: Seq<char>,
    name: Seq<char>,
    age: Seq<char>,
    major: Seq<char>,
) -> Seq<char> {
    "| "@ + padded(id, ID_WIDTH as nat) + " | "@ + padded(name, NAME_WIDTH as nat) + " | "@
        + padded(age, AGE_WIDTH as nat) + " | "@ + padded(major, MAJOR_WIDTH as nat) + " |"@
}

/// The line that names the columns.
pub open spec fn header_line() -> Seq<char> {
    row_line("id"@, "name"@, "age"@, "major"@)
}

/// The line of one student: the numbers in decimal, the texts as they are.
pub open spec fn student_line(student: StudentRecord) -> Seq<char> {
    row_line(decimal(student.id), student.name, decimal(student.age), student.major)
}

/// The whole table: the header, then the students in the order given.
pub open spec fn table_lines(students: Seq<StudentRecord>) -> Seq<Seq<char>> {
    seq![header_line()] + students.map_values(|student: StudentRecord| student_line(student))
}

/// Lays four cell texts out as one line.
pub fn render_row(id: &str, name: &str, age: &str, major: &str) -> (line: String)
    ensures
        line@ == row_line(id@, name@, age@, major@),
{
    let mut line = String::from_str("| ");
    line.append(pad(id, ID_WIDTH).as_str());
    line.append(" | ");
    line.append(pad(name, NAME_WIDTH).as_str());
    line.append(" | ");
    line.append(pad(age, AGE_WIDTH).as_str());
    line.append(" | ");
    line.append(pad(major, MAJOR_WIDTH).as_str());
    line.append(" |");
    line
}

/// The header line.
pub fn render_header() -> (line: String)
    ensures
        line@ == header_line(),
{
    render_row("id", "name", "age", "major")
}

/// The line of one student.
pub fn render_student(student: &Student) -> (line: String)
    ensures
        line@ == student_line(student@),
{
    let id = decimal_text(student.id);
    let age = decimal_text(student.age);
    render_row(id.as_str(), student.name.as_str(), age.as_str(), student.major.as_str())
}

/// The table of `students`, line by line.
pub fn render_table(students: &Vec<Student>) -> (lines: Vec<String>)
    ensures
        texts(lines@) == table_lines(records(students@)),
{
    let mut lines: Vec<String> = Vec::new();
    lines.push(render_header());
    let mut at: usize = 0;
    while at < students.len()
        invariant
            at <= students.len(),
            lines@.len() == at + 1,
            lines@[0]@ == header_line(),
            forall|i: int| 0 <= i < at ==> (#[trigger] lines@[i + 1])@ == student_line(students@[i]@),
        decreases students.len() - at,
    {
        lines.push(render_student(&students[at]));
        at = at + 1;
    }
    proof {
        let table = table_lines(records(students@));
        assert forall|i: int| 0 <= i < table.len() implies texts(lines@)[i] == table[i] by {
            if i > 0 {
                assert(lines@[(i - 1) + 1]@ == student_line(students@[i - 1]@));
            }
        }
    }
    lines
}

/// A table has its header first and then one line for each student, in
/// order: a table of no students is the header alone.
pub proof fn table_has_header_and_rows(students: Seq<StudentRecord>)
    ensures
        table_lines(students).len() == students.len() + 1,
        table_lines(students)[0] == header_line(),
        forall|i: int|
            0 <= i < students.len() ==> #[trigger] table_lines(students)[i + 1] == student_line(
                students[i],
            ),
{
}

/// The header, written out.
pub proof fn header_is_fixed()
    ensures
        header_line() == "| id  | name         | age | major  |"@,
{
    reveal_strlit("| ");
    reveal_strlit(" | ");
    reveal_strlit(" |");
    reveal_strlit("id");
    reveal_strlit("name");
    reveal_strlit("age");
    reveal_strlit("major");
    reveal_strlit("| id  | name         | age | major  |");
}

/// A line is never shorter than the header, and exactly as long where every
/// value fits its cell; a wider value lengthens its line by what it is over.
pub proof fn line_width(id: Seq<char>, name: Seq<char>, age: Seq<char>, major: Seq<char>)
    ensures
        row_line(id, name, age, major).len() == 13 + padded(id, ID_WIDTH as nat).len()
            + padded(name, NAME_WIDTH as nat).len() + padded(age, AGE_WIDTH as nat).len()
            + padded(major, MAJOR_WIDTH as nat).len(),
        row_line(id, name, age, major).len() >= LINE_WIDTH,
        id.len() <= ID_WIDTH && name.len() <= NAME_WIDTH && age.len() <= AGE_WIDTH
            && major.len() <= MAJOR_WIDTH ==> row_line(id, name, age, major).len() == LINE_WIDTH,
{
    reveal_strlit("| ");
    reveal_strlit(" | ");
    reveal_strlit(" |");
    padded_keeps_text(id, ID_WIDTH as nat);
    padded_keeps_text(name, NAME_WIDTH as nat);
    padded_keeps_text(age, AGE_WIDTH as nat);
    padded_keeps_text(major, MAJOR_WIDTH as nat);
}

} // verus!
