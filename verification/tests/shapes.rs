use sqlite::error::{bad_text, out_of_range, wrong_shape, wrong_type, ErrorKind, StoreError};
use sqlite::shape::{accept_rows, decode_row, read_number, read_text, Cell, STUDENT_COLUMNS};
use sqlite::student::Student;
use sqlite::text::{count_text, wide_decimal_text};

fn student(id: i32) -> Student {
    Student { id, name: format!("n{id}"), age: id + 20, major: format!("m{id}") }
}

fn text(s: &str) -> Cell {
    Cell::Text(s.as_bytes().to_vec())
}

fn row(id: i32) -> Vec<Cell> {
    let s = student(id);
    vec![Cell::Integer(s.id as i64), text(&s.name), Cell::Integer(s.age as i64), text(&s.major)]
}

fn malformed(message: &str) -> StoreError {
    StoreError { kind: ErrorKind::Malformed, message: message.to_string() }
}

#[test]
fn a_student_has_four_columns() {
    assert_eq!(STUDENT_COLUMNS, 4);
}

#[test]
fn a_number_is_an_integer_of_32_bits() {
    assert_eq!(read_number(&Cell::Integer(0), 0), Ok(0));
    assert_eq!(read_number(&Cell::Integer(-7), 2), Ok(-7));
    assert_eq!(read_number(&Cell::Integer(2147483647), 0), Ok(i32::MAX));
    assert_eq!(read_number(&Cell::Integer(-2147483648), 0), Ok(i32::MIN));
}

#[test]
fn a_number_out_of_range_is_refused() {
    assert_eq!(
        read_number(&Cell::Integer(2147483648), 0),
        Err(malformed("Integer 2147483648 out of range at index 0"))
    );
    assert_eq!(
        read_number(&Cell::Integer(-2147483649), 2),
        Err(malformed("Integer -2147483649 out of range at index 2"))
    );
    assert_eq!(
        read_number(&Cell::Integer(i64::MIN), 2),
        Err(malformed("Integer -9223372036854775808 out of range at index 2"))
    );
    assert_eq!(
        read_number(&Cell::Integer(i64::MAX), 0),
        Err(malformed("Integer 9223372036854775807 out of range at index 0"))
    );
}

#[test]
fn a_number_of_another_type_is_refused() {
    assert_eq!(read_number(&Cell::Null, 2), Err(malformed("Invalid column type Null at index: 2")));
    assert_eq!(read_number(&Cell::Real, 0), Err(malformed("Invalid column type Real at index: 0")));
    assert_eq!(read_number(&text("12"), 0), Err(malformed("Invalid column type Text at index: 0")));
    assert_eq!(read_number(&Cell::Blob, 2), Err(malformed("Invalid column type Blob at index: 2")));
}

#[test]
fn a_text_is_utf8_and_is_kept_whole() {
    assert_eq!(read_text(&text(""), 1), Ok(String::new()));
    assert_eq!(read_text(&text("Alice"), 1), Ok("Alice".to_string()));
    assert_eq!(read_text(&text(" Zoë \u{1F393}\n"), 3), Ok(" Zoë \u{1F393}\n".to_string()));
    assert_eq!(read_text(&Cell::Text(vec![0xe6, 0x97, 0xa5]), 1), Ok("日".to_string()));
}

#[test]
fn a_text_that_is_not_utf8_is_refused() {
    assert_eq!(read_text(&Cell::Text(vec![0xff]), 1), Err(malformed("Invalid UTF-8 text at index: 1")));
    assert_eq!(
        read_text(&Cell::Text(vec![0x41, 0xc3]), 3),
        Err(malformed("Invalid UTF-8 text at index: 3"))
    );
    assert_eq!(
        read_text(&Cell::Text(vec![0xed, 0xa0, 0x80]), 3),
        Err(malformed("Invalid UTF-8 text at index: 3"))
    );
}

#[test]
fn a_text_of_another_type_is_refused() {
    assert_eq!(read_text(&Cell::Null, 3), Err(malformed("Invalid column type Null at index: 3")));
    assert_eq!(read_text(&Cell::Integer(5), 1), Err(malformed("Invalid column type Integer at index: 1")));
    assert_eq!(read_text(&Cell::Real, 1), Err(malformed("Invalid column type Real at index: 1")));
    assert_eq!(read_text(&Cell::Blob, 3), Err(malformed("Invalid column type Blob at index: 3")));
}

#[test]
fn a_row_of_four_fitting_values_is_a_student() {
    assert_eq!(decode_row(&row(3)), Ok(student(3)));
    assert_eq!(
        decode_row(&vec![Cell::Integer(1), text("Alice"), Cell::Integer(20), text("Computer Science")]),
        Ok(Student { id: 1, name: "Alice".to_string(), age: 20, major: "Computer Science".to_string() })
    );
}

#[test]
fn a_row_of_another_width_is_refused_before_its_values_are_read() {
    assert_eq!(decode_row(&vec![]), Err(malformed("a student has 4 columns, the row has 0")));
    assert_eq!(
        decode_row(&vec![Cell::Null, Cell::Null, Cell::Null]),
        Err(malformed("a student has 4 columns, the row has 3"))
    );
    let mut wide = row(1);
    wide.push(text("extra"));
    assert_eq!(decode_row(&wide), Err(malformed("a student has 4 columns, the row has 5")));
}

#[test]
fn the_leftmost_flaw_of_a_row_is_the_one_reported() {
    assert_eq!(
        decode_row(&vec![Cell::Null, Cell::Null, Cell::Null, Cell::Null]),
        Err(malformed("Invalid column type Null at index: 0"))
    );
    assert_eq!(
        decode_row(&vec![Cell::Integer(1), Cell::Text(vec![0x80]), Cell::Real, Cell::Blob]),
        Err(malformed("Invalid UTF-8 text at index: 1"))
    );
    assert_eq!(
        decode_row(&vec![Cell::Integer(1), text("a"), Cell::Integer(1 << 40), Cell::Blob]),
        Err(malformed("Integer 1099511627776 out of range at index 2"))
    );
    assert_eq!(
        decode_row(&vec![Cell::Integer(1), text("a"), Cell::Integer(2), Cell::Blob]),
        Err(malformed("Invalid column type Blob at index: 3"))
    );
}

#[test]
fn no_rows_are_accepted_as_no_students() {
    assert_eq!(accept_rows(&vec![]), Ok(vec![]));
}

#[test]
fn fitting_rows_are_accepted_in_order() {
    assert_eq!(accept_rows(&vec![row(3), row(1), row(2)]), Ok(vec![student(3), student(1), student(2)]));
}

#[test]
fn a_wider_row_fails_the_whole_read() {
    let mut wide = row(2);
    wide.push(Cell::Null);
    assert_eq!(
        accept_rows(&vec![row(1), wide, row(3)]),
        Err(malformed("a student has 4 columns, the row has 5"))
    );
}

#[test]
fn the_first_row_that_fails_is_the_one_reported() {
    let mut wide = row(2);
    wide.push(Cell::Null);
    let narrow = vec![Cell::Integer(1)];
    let mut odd = row(4);
    odd[2] = Cell::Real;
    assert_eq!(
        accept_rows(&vec![row(1), odd.clone(), wide.clone(), narrow.clone()]),
        Err(malformed("Invalid column type Real at index: 2"))
    );
    assert_eq!(
        accept_rows(&vec![narrow, odd, wide]),
        Err(malformed("a student has 4 columns, the row has 1"))
    );
}

#[test]
fn errors_of_decoding_are_malformed_statements() {
    assert_eq!(wrong_shape(12), malformed("a student has 4 columns, the row has 12"));
    assert_eq!(wrong_type("Blob", 3), malformed("Invalid column type Blob at index: 3"));
    assert_eq!(out_of_range(-5000000000, 0), malformed("Integer -5000000000 out of range at index 0"));
    assert_eq!(bad_text(1), malformed("Invalid UTF-8 text at index: 1"));
    assert_eq!(wrong_shape(12).to_text(), "malformed statement: a student has 4 columns, the row has 12");
}

#[test]
fn the_names_of_the_types() {
    assert_eq!(Cell::Null.kind(), "Null");
    assert_eq!(Cell::Integer(1).kind(), "Integer");
    assert_eq!(Cell::Real.kind(), "Real");
    assert_eq!(text("x").kind(), "Text");
    assert_eq!(Cell::Blob.kind(), "Blob");
}

#[test]
fn counts_in_decimal() {
    assert_eq!(count_text(0), "0");
    assert_eq!(count_text(4), "4");
    assert_eq!(count_text(10), "10");
    assert_eq!(count_text(2047), "2047");
    assert_eq!(count_text(usize::MAX), format!("{}", usize::MAX));
}

#[test]
fn wide_numbers_in_decimal() {
    assert_eq!(wide_decimal_text(0), "0");
    assert_eq!(wide_decimal_text(-1), "-1");
    assert_eq!(wide_decimal_text(3000000000), "3000000000");
    assert_eq!(wide_decimal_text(i64::MAX), "9223372036854775807");
    assert_eq!(wide_decimal_text(i64::MIN), "-9223372036854775808");
    assert_eq!(wide_decimal_text(i64::MIN + 1), "-9223372036854775807");
}
