use sqlite::error::{engine_failure, unknown_column, ErrorKind, StoreError};

fn kind_of(code: Option<i32>) -> ErrorKind {
    engine_failure(code, String::new()).kind
}

#[test]
fn constraint_codes_are_constraint_violations() {
    assert_eq!(kind_of(Some(19)), ErrorKind::Constraint);
    assert_eq!(kind_of(Some(1555)), ErrorKind::Constraint);
    assert_eq!(kind_of(Some(2067)), ErrorKind::Constraint);
    assert_eq!(kind_of(Some(1299)), ErrorKind::Constraint);
    assert_eq!(kind_of(Some(275)), ErrorKind::Constraint);
}

#[test]
fn statement_codes_are_malformed_statements() {
    assert_eq!(kind_of(Some(1)), ErrorKind::Malformed);
    assert_eq!(kind_of(Some(18)), ErrorKind::Malformed);
    assert_eq!(kind_of(Some(20)), ErrorKind::Malformed);
    assert_eq!(kind_of(Some(21)), ErrorKind::Malformed);
    assert_eq!(kind_of(Some(25)), ErrorKind::Malformed);
    assert_eq!(kind_of(Some(257)), ErrorKind::Malformed);
}

#[test]
fn a_failure_of_the_driver_is_a_malformed_statement() {
    assert_eq!(kind_of(None), ErrorKind::Malformed);
}

#[test]
fn every_other_code_is_a_storage_failure() {
    for code in [2, 3, 4, 5, 6, 7, 8, 9, 10, 11, 12, 13, 14, 15, 16, 17, 22, 23, 24, 26, 27, 28, 100, 101, 0] {
        assert_eq!(kind_of(Some(code)), ErrorKind::Storage, "code {code}");
    }
    assert_eq!(kind_of(Some(266)), ErrorKind::Storage);
    assert_eq!(kind_of(Some(1032)), ErrorKind::Storage);
    assert_eq!(kind_of(Some(526)), ErrorKind::Storage);
}

#[test]
fn only_the_low_byte_decides() {
    for high in [0, 1, 2, 5, 8, 100] {
        assert_eq!(kind_of(Some(19 | (high << 8))), ErrorKind::Constraint);
        assert_eq!(kind_of(Some(1 | (high << 8))), ErrorKind::Malformed);
        assert_eq!(kind_of(Some(10 | (high << 8))), ErrorKind::Storage);
    }
}

#[test]
fn engine_failure_keeps_the_message() {
    assert_eq!(
        engine_failure(Some(1555), "UNIQUE constraint failed: students.id".to_string()),
        StoreError { kind: ErrorKind::Constraint, message: "UNIQUE constraint failed: students.id".to_string() }
    );
}

#[test]
fn engine_failure_is_never_a_validation_error() {
    for code in -300..3000 {
        assert_ne!(kind_of(Some(code)), ErrorKind::Validation);
    }
    assert_ne!(kind_of(None), ErrorKind::Validation);
}

#[test]
fn unknown_column_names_the_column() {
    assert_eq!(
        unknown_column("nickname"),
        StoreError { kind: ErrorKind::Validation, message: "unknown column: nickname".to_string() }
    );
    assert_eq!(
        unknown_column(""),
        StoreError { kind: ErrorKind::Validation, message: "unknown column: ".to_string() }
    );
}

#[test]
fn error_text_has_the_label_of_its_class() {
    let text = |kind: ErrorKind| StoreError { kind, message: "m".to_string() }.to_text();
    assert_eq!(text(ErrorKind::Constraint), "constraint violation: m");
    assert_eq!(text(ErrorKind::Storage), "storage failure: m");
    assert_eq!(text(ErrorKind::Malformed), "malformed statement: m");
    assert_eq!(text(ErrorKind::Validation), "invalid argument: m");
    assert_eq!(unknown_column("x y").to_text(), "invalid argument: unknown column: x y");
}
