//! The commands that the typed operations send to the engine: fixed SQL
//! text with numbered placeholders, and the values bound to them. No value
//! is ever written into the text. The one part of a text that varies is the
//! column of an update, and it is taken from a closed list.

use crate::student::{param_values, Param, ParamValue};
use crate::text::same_text;
use vstd::prelude::*;
use vstd::string::*;

verus! {

/// A column that an update may set.
#[derive(Debug, Clone, Copy, PartialEq, Eq, Structural)]
pub enum Column {
    Name,
    Age,
    Major,
}

impl Column {
    /// The column's name as the table spells it.
    pub open spec fn spelling(self) -> Seq<char> {
        match self {
            Column::Name => "name"@,
            Column::Age => "age"@,
            Column::Major => "major"@,
        }
    }

    /// The column's name as the table spells it.
    pub fn name(self) -> (name: &'static str)
        ensures
            name@ == self.spelling(),
    {
        match self {
            Column::Name => "name",
            Column::Age => "age",
            Column::Major => "major",
        }
    }
}

/// The column that `name` spells, if it may be updated. The match is exact:
/// no trimming, no folding of case.
pub open spec fn column_named(name: Seq<char>) -> Option<Column> {
    if name == "name"@ {
        Some(Column::Name)
    } else if name == "age"@ {
        Some(Column::Age)
    } else if name == "major"@ {
        Some(Column::Major)
    } else {
        None
    }
}

/// Whether `name` spells one of the columns that an update may set.
pub open spec fn is_updatable(name: Seq<char>) -> bool {
    column_named(name) is Some
}

/// Looks `name` up in the list of columns that an update may set.
pub fn parse_column(name: &str) -> (column: Option<Column>)
    ensures
        column == column_named(name@),
        column is Some <==> is_updatable(name@),
        column matches Some(c) ==> c.spelling() == name@,
{
    if same_text(name, "name") {
        Some(Column::Name)
    } else if same_text(name, "age") {
        Some(Column::Age)
    } else if same_text(name, "major") {
        Some(Column::Major)
    } else {
        None
    }
}

/// SQL text and the values for its placeholders `?1`, `?2`, ... in order.
#[derive(Debug, Clone, PartialEq, Eq)]
pub struct Command {
    pub sql: String,
    pub params: Vec<Param>,
}

/// What a [`Command`] stands for in contracts.
pub struct CommandView {
    pub sql: Seq<char>,
    pub params: Seq<ParamValue>,
}

impl View for Command {
    type V = CommandView;

    open spec fn view(&self) -> CommandView {
        CommandView { sql: self.sql@, params: param_values(self.params@) }
    }
}

/// Creates the table unless it is there.
pub const CREATE_TABLE_SQL: &'static str =
    "CREATE TABLE IF NOT EXISTS students (id INTEGER PRIMARY KEY, name TEXT NOT NULL, age INTEGER, major TEXT)";

/// Removes the table if it is there.
pub const DROP_TABLE_SQL: &'static str = "DROP TABLE IF EXISTS students";

/// Inserts one row from four placeholders.
pub const INSERT_SQL: &'static str =
    "INSERT INTO students (id, name, age, major) VALUES (?1, ?2, ?3, ?4)";

/// Selects the row with the id in the placeholder.
pub const SELECT_ONE_SQL: &'static str = "SELECT id, name, age, major FROM students WHERE id = ?1";

/// Selects every row, in the engine's order.
pub const SELECT_ALL_SQL: &'static str = "SELECT id, name, age, major FROM students";

/// Deletes the row with the id in the placeholder.
pub const DELETE_SQL: &'static str = "DELETE FROM students WHERE id = ?1";

/// What an update says before the column.
pub const UPDATE_HEAD: &'static str = "UPDATE students SET ";

/// What an update says after the column: the new value is the first
/// placeholder, the id the second.
pub const UPDATE_TAIL: &'static str = " = ?1 WHERE id = ?2";

/// The text of the update that sets `column`.
pub open spec fn update_sql(column: Column) -> Seq<char> {
    UPDATE_HEAD@ + column.spelling() + UPDATE_TAIL@
}

/// The command that creates the table.
pub open spec fn create_table_command() -> CommandView {
    CommandView { sql: CREATE_TABLE_SQL@, params: seq![] }
}

/// The command that drops the table.
pub open spec fn drop_table_command() -> CommandView {
    CommandView { sql: DROP_TABLE_SQL@, params: seq![] }
}

/// The command that inserts one student.
pub open spec fn insert_command(id: int, name: Seq<char>, age: int, major: Seq<char>) -> CommandView {
    CommandView {
        sql: INSERT_SQL@,
        params: seq![
            ParamValue::Integer(id),
            ParamValue::Text(name),
            ParamValue::Integer(age),
            ParamValue::Text(major),
        ],
    }
}

/// The command that reads the student with `id`.
pub open spec fn select_one_command(id: int) -> CommandView {
    CommandView { sql: SELECT_ONE_SQL@, params: seq![ParamValue::Integer(id)] }
}

/// The command that reads every student.
pub open spec fn select_all_command() -> CommandView {
    CommandView { sql: SELECT_ALL_SQL@, params: seq![] }
}

/// The command that sets one column of the student with `id`. The new
/// value is bound as text, whatever the column.
pub open spec fn update_command(id: int, column: Column, value: Seq<char>) -> CommandView {
    CommandView {
        sql: update_sql(column),
        params: seq![ParamValue::Text(value), ParamValue::Integer(id)],
    }
}

/// The command that runs `sql` as the caller wrote it, with nothing bound.
pub open spec fn raw_command(sql: Seq<char>) -> CommandView {
    CommandView { sql, params: seq![] }
}

/// The command that deletes the student with `id`.
pub open spec fn delete_command(id: int) -> CommandView {
    CommandView { sql: DELETE_SQL@, params: seq![ParamValue::Integer(id)] }
}

fn fixed(sql: &str, params: Vec<Param>) -> (command: Command)
    ensures
        command.sql@ == sql@,
        command.params == params,
{
    Command { sql: String::from_str(sql), params }
}

impl Command {
    /// The command that creates the table unless it is there.
    pub fn create_table() -> (command: Command)
        ensures
            command@ == create_table_command(),
    {
        let command = fixed(CREATE_TABLE_SQL, Vec::new());
        assert(command@.params =~= seq![]);
        command
    }

    /// The command that removes the table if it is there.
    pub fn drop_table() -> (command: Command)
        ensures
            command@ == drop_table_command(),
    {
        let command = fixed(DROP_TABLE_SQL, Vec::new());
        assert(command@.params =~= seq![]);
        command
    }

    /// The command that inserts one student, every field bound.
    pub fn insert(id: i32, name: &str, age: i32, major: &str) -> (command: Command)
        ensures
            command@ == insert_command(id as int, name@, age as int, major@),
    {
        let mut params: Vec<Param> = Vec::new();
        params.push(Param::Integer(id));
        params.push(Param::Text(String::from_str(name)));
        params.push(Param::Integer(age));
        params.push(Param::Text(String::from_str(major)));
        let command = fixed(INSERT_SQL, params);
        assert(command@.params =~= insert_command(id as int, name@, age as int, major@).params);
        command
    }

    /// The command that reads the student with `id`.
    pub fn select_one(id: i32) -> (command: Command)
        ensures
            command@ == select_one_command(id as int),
    {
        let mut params: Vec<Param> = Vec::new();
        params.push(Param::Integer(id));
        let command = fixed(SELECT_ONE_SQL, params);
        assert(command@.params =~= select_one_command(id as int).params);
        command
    }

    /// The command that reads every student.
    pub fn select_all() -> (command: Command)
        ensures
            command@ == select_all_command(),
    {
        let command = fixed(SELECT_ALL_SQL, Vec::new());
        assert(command@.params =~= seq![]);
        command
    }

    /// The command that sets `column` of the student with `id` to `value`.
    /// Only the column's own spelling enters the text; `value` is bound.
    pub fn update(id: i32, column: Column, value: &str) -> (command: Command)
        ensures
            command@ == update_command(id as int, column, value@),
    {
        let mut sql = String::from_str(UPDATE_HEAD);
        sql.append(column.name());
        sql.append(UPDATE_TAIL);
        let mut params: Vec<Param> = Vec::new();
        params.push(Param::Text(String::from_str(value)));
        params.push(Param::Integer(id));
        let command = Command { sql, params };
        assert(command@.params =~= update_command(id as int, column, value@).params);
        command
    }

    /// The command that runs text of the caller's: the text as it stands,
    /// character for character, and nothing bound.
    pub fn raw(sql: &str) -> (command: Command)
        ensures
            command@ == raw_command(sql@),
    {
        let command = fixed(sql, Vec::new());
        assert(command@.params =~= seq![]);
        command
    }

    /// The command that deletes the student with `id`.
    pub fn delete(id: i32) -> (command: Command)
        ensures
            command@ == delete_command(id as int),
    {
        let mut params: Vec<Param> = Vec::new();
        params.push(Param::Integer(id));
        let command = fixed(DELETE_SQL, params);
        assert(command@.params =~= delete_command(id as int).params);
        command
    }
}

/// An update never carries text of the caller's into the command: whatever
/// the column, the text is one of three fixed sentences.
pub proof fn update_text_is_closed(column: Column)
    ensures
        update_sql(column) == "UPDATE students SET name = ?1 WHERE id = ?2"@ || update_sql(column)
            == "UPDATE students SET age = ?1 WHERE id = ?2"@ || update_sql(column)
            == "UPDATE students SET major = ?1 WHERE id = ?2"@,
{
    reveal_strlit("UPDATE students SET ");
    reveal_strlit(" = ?1 WHERE id = ?2");
    reveal_strlit("name");
    reveal_strlit("age");
    reveal_strlit("major");
    reveal_strlit("UPDATE students SET name = ?1 WHERE id = ?2");
    reveal_strlit("UPDATE students SET age = ?1 WHERE id = ?2");
    reveal_strlit("UPDATE students SET major = ?1 WHERE id = ?2");
}

/// A name is accepted for an update only if it is exactly the spelling of a
/// column, so a name with anything before or after it is refused; and each
/// column is found under its own spelling.
pub proof fn only_exact_names_are_columns(name: Seq<char>, column: Column)
    ensures
        is_updatable(name) <==> exists|c: Column| c.spelling() == name,
        is_updatable(name) ==> 3 <= name.len() <= 5,
        column_named(name) == Some(column) <==> name == column.spelling(),
{
    reveal_strlit("name");
    reveal_strlit("age");
    reveal_strlit("major");
    if is_updatable(name) {
        if name == "name"@ {
            assert(Column::Name.spelling() == name);
        } else if name == "age"@ {
            assert(Column::Age.spelling() == name);
        } else {
            assert(Column::Major.spelling() == name);
        }
    }
}

} // verus!
