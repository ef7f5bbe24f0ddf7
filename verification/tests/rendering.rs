use sqlite::render::{render_header, render_row, render_student, render_table};
use sqlite::report::Report;
use sqlite::student::Student;
use sqlite::text::{decimal_text, pad, same_text, starts_with};

fn student(id: i32, name: &str, age: i32, major: &str) -> Student {
    Student { id, name: name.to_string(), age, major: major.to_string() }
}

#[test]
fn decimal_of_small_numbers() {
    assert_eq!(decimal_text(0), "0");
    assert_eq!(decimal_text(7), "7");
    assert_eq!(decimal_text(10), "10");
    assert_eq!(decimal_text(20), "20");
    assert_eq!(decimal_text(105), "105");
    assert_eq!(decimal_text(-1), "-1");
    assert_eq!(decimal_text(-40), "-40");
}

#[test]
fn decimal_of_the_extremes() {
    assert_eq!(decimal_text(i32::MAX), "2147483647");
    assert_eq!(decimal_text(i32::MIN), "-2147483648");
    assert_eq!(decimal_text(1_000_000_000), "1000000000");
    assert_eq!(decimal_text(-1_000_000_000), "-1000000000");
}

#[test]
fn decimal_agrees_with_the_standard_formatting() {
    let mut n: i64 = i32::MIN as i64;
    while n <= i32::MAX as i64 {
        let value = n as i32;
        assert_eq!(decimal_text(value), format!("{}", value));
        n += 9_999_991;
    }
    for value in -1100..1100 {
        assert_eq!(decimal_text(value), format!("{}", value));
    }
}

#[test]
fn pad_fills_up_to_the_width() {
    assert_eq!(pad("id", 3), "id ");
    assert_eq!(pad("", 3), "   ");
    assert_eq!(pad("Alice", 12), "Alice       ");
    assert_eq!(pad("x", 0), "x");
    assert_eq!(pad("", 0), "");
}

#[test]
fn pad_never_cuts() {
    assert_eq!(pad("age", 3), "age");
    assert_eq!(pad("Computer Science", 6), "Computer Science");
    assert_eq!(pad("1234", 3), "1234");
}

#[test]
fn pad_counts_characters_not_bytes() {
    assert_eq!(pad("Zoë", 5), "Zoë  ");
    assert_eq!(pad("日本語", 4), "日本語 ");
    assert_eq!(pad("🎓🎓🎓", 3), "🎓🎓🎓");
    assert_eq!(pad("Zoë", 5), format!("{:<5}", "Zoë"));
}

#[test]
fn header_is_the_fixed_line() {
    assert_eq!(render_header(), "| id  | name         | age | major  |");
    assert_eq!(render_header(), format!("| {:<3} | {:<12} | {:<3} | {:<6} |", "id", "name", "age", "major"));
    assert_eq!(render_header().chars().count(), 37);
}

#[test]
fn row_of_four_cells() {
    assert_eq!(render_row("1", "Alice", "20", "Math"), "| 1   | Alice        | 20  | Math   |");
    assert_eq!(render_row("", "", "", ""), "|     |              |     |        |");
    assert_eq!(
        render_row("1", "Alice", "20", "Computer Science"),
        "| 1   | Alice        | 20  | Computer Science |"
    );
}

#[test]
fn student_line_matches_the_standard_formatting() {
    let cases = [
        student(1, "Alice", 20, "Computer Science"),
        student(-12, "Bob", -3, ""),
        student(i32::MAX, "A name longer than twelve", i32::MIN, "Art"),
        student(0, "", 0, "Mathem"),
    ];
    for s in cases {
        assert_eq!(
            render_student(&s),
            format!("| {:<3} | {:<12} | {:<3} | {:<6} |", s.id, s.name, s.age, s.major)
        );
    }
}

#[test]
fn student_line_exact() {
    assert_eq!(
        render_student(&student(-12, "Bob", 5, "Law")),
        "| -12 | Bob          | 5   | Law    |"
    );
}

#[test]
fn table_of_no_students_is_the_header() {
    assert_eq!(render_table(&vec![]), vec!["| id  | name         | age | major  |".to_string()]);
}

#[test]
fn table_keeps_the_order_given() {
    let students = vec![student(2, "Bob", 22, "Law"), student(1, "Alice", 20, "Math"), student(2, "Bob", 22, "Law")];
    assert_eq!(
        render_table(&students),
        vec![
            "| id  | name         | age | major  |".to_string(),
            "| 2   | Bob          | 22  | Law    |".to_string(),
            "| 1   | Alice        | 20  | Math   |".to_string(),
            "| 2   | Bob          | 22  | Law    |".to_string(),
        ]
    );
}

#[test]
fn report_of_a_table_carries_students_and_lines() {
    let students = vec![student(1, "Alice", 20, "Math")];
    let report = Report::table(students.clone());
    assert_eq!(
        report,
        Report::Table {
            students,
            lines: vec![
                "| id  | name         | age | major  |".to_string(),
                "| 1   | Alice        | 20  | Math   |".to_string(),
            ],
        }
    );
    assert_eq!(
        report.into_lines(),
        vec!["| id  | name         | age | major  |".to_string(), "| 1   | Alice        | 20  | Math   |".to_string()]
    );
}

#[test]
fn report_of_a_confirmation_is_one_line() {
    let report = Report::confirmation("Done.");
    assert_eq!(report, Report::Confirmation { message: "Done.".to_string() });
    assert_eq!(report.into_lines(), vec!["Done.".to_string()]);
}

#[test]
fn starts_with_compares_characters() {
    assert!(starts_with("SELECT 1", "SELECT"));
    assert!(starts_with("SELECT", "SELECT"));
    assert!(starts_with("anything", ""));
    assert!(starts_with("", ""));
    assert!(!starts_with("SELEC", "SELECT"));
    assert!(!starts_with("", "S"));
    assert!(!starts_with("select 1", "SELECT"));
    assert!(!starts_with(" SELECT", "SELECT"));
    assert!(starts_with("日本語です", "日本"));
    assert!(!starts_with("日本語です", "日語"));
}

#[test]
fn same_text_is_exact() {
    assert!(same_text("name", "name"));
    assert!(same_text("", ""));
    assert!(!same_text("name", "names"));
    assert!(!same_text("names", "name"));
    assert!(!same_text("name", "Name"));
    assert!(!same_text("name", ""));
}
