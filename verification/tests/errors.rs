use conventional_commit::errors::{Displayable, Errors};
use conventional_commit::text::Text;

#[derive(Debug, PartialEq)]
struct TestData {
    string: String,
    num: i32,
}

#[derive(Debug, PartialEq)]
enum TestError {
    Numeric(i32),
    String(String),
    Complex { msg: String, number: i32 },
    Struct(TestData),
    Nested(Box<TestError>),
}

impl Displayable for TestError {
    fn rendered(&self) -> Text {
        unreachable!("only contracts speak of the rendered text")
    }

    fn display(&self) -> String {
        match self {
            TestError::Numeric(n) => format!("numeric error: {n}"),
            TestError::String(s) => format!("string error: {s}"),
            TestError::Complex { msg, number } => format!("complex error: {msg}: {number}"),
            TestError::Struct(data) => format!("struct error: {data:?}"),
            TestError::Nested(inner) => inner.display(),
        }
    }
}

fn numeric(values: &[i32]) -> Errors<TestError> {
    let mut errs = Errors::new();
    for v in values {
        errs.append(TestError::Numeric(*v));
    }
    errs
}

#[test]
fn test_appends_to_existing_errors() {
    let mut errs = Errors::from(vec![TestError::Numeric(1)]);

    errs.append(TestError::String("boom".to_string()));

    assert_eq!(
        "error(s):\n  \
               numeric error: 1\n  \
               string error: boom\
            ",
        errs.display()
    );
}

#[test]
fn test_displays_error_list_single_error() {
    let errs = Errors::from(vec![TestError::String("boom".to_string())]);
    assert_eq!(vec!["error(s):", "  string error: boom"].join("\n"), errs.display());
}

#[test]
fn test_displays_error_list_multiple_errors() {
    let errs = Errors::from(vec![TestError::Numeric(1), TestError::Numeric(2)]);
    assert_eq!(
        vec!["error(s):", "  numeric error: 1", "  numeric error: 2"].join("\n"),
        errs.display()
    );
}

#[test]
fn test_displays_error_list_complex_error() {
    let errs = Errors::from(vec![TestError::Complex { msg: "failed".to_string(), number: 42 }]);
    assert_eq!(vec!["error(s):", "  complex error: failed: 42"].join("\n"), errs.display());
}

#[test]
fn test_displays_error_list_struct_error() {
    let errs = Errors::from(vec![TestError::Struct(TestData { string: "test".to_string(), num: 100 })]);
    assert_eq!(
        vec!["error(s):", "  struct error: TestData { string: \"test\", num: 100 }"].join("\n"),
        errs.display()
    );
}

#[test]
fn test_displays_error_list_nested_error() {
    let errs = Errors::from(vec![TestError::Nested(Box::new(TestError::String(
        "inner error".to_string(),
    )))]);
    assert_eq!(vec!["error(s):", "  string error: inner error"].join("\n"), errs.display());
}

#[test]
fn test_displays_error_list_mixed_errors() {
    let errs = Errors::from(vec![
        TestError::Numeric(42),
        TestError::String("text error".to_string()),
        TestError::Complex { msg: "complex".to_string(), number: 7 },
    ]);
    assert_eq!(
        vec![
            "error(s):",
            "  numeric error: 42",
            "  string error: text error",
            "  complex error: complex: 7",
        ]
        .join("\n"),
        errs.display()
    );
}

#[test]
fn test_displays_nothing_for_empty_list() {
    let errs: Errors<TestError> = Errors::new();
    assert_eq!("", errs.display());
    let errs: Errors<TestError> = Errors::from(vec![]);
    assert_eq!("", errs.display());
}

#[test]
fn test_get_first_error_as_source_single_error() {
    let errs = Errors::from(vec![TestError::String("boom".to_string())]);
    assert_eq!(Some(&TestError::String("boom".to_string())), errs.source());
}

#[test]
fn test_get_first_error_as_source_multiple_errors() {
    let errs = Errors::from(vec![TestError::Numeric(1), TestError::String("2".to_string())]);
    assert_eq!(Some(&TestError::Numeric(1)), errs.source());
}

#[test]
fn test_get_first_error_as_source_nested_error() {
    let errs = Errors::from(vec![TestError::Nested(Box::new(TestError::Numeric(99)))]);
    assert_eq!(Some(&TestError::Nested(Box::new(TestError::Numeric(99)))), errs.source());
}

#[test]
fn test_source_of_empty_list_is_none() {
    let errs: Errors<TestError> = Errors::new();
    assert_eq!(None, errs.source());
}

#[test]
fn test_source_stays_first_after_append() {
    let mut errs = numeric(&[7]);
    errs.append(TestError::Numeric(8));
    errs.append(TestError::Numeric(9));
    assert_eq!(Some(&TestError::Numeric(7)), errs.source());
}

#[test]
fn test_is_empty_empty() {
    let errs: Errors<TestError> = Errors::from(vec![]);
    assert!(errs.is_empty());
}

#[test]
fn test_is_empty_one() {
    let errs = Errors::from(vec![TestError::Numeric(1)]);
    assert!(!errs.is_empty());
}

#[test]
fn test_len_empty() {
    let errs: Errors<TestError> = Errors::from(vec![]);
    assert_eq!(0, errs.len());
}

#[test]
fn test_len_two() {
    let errs = Errors::from(vec![TestError::Numeric(1), TestError::Numeric(2)]);
    assert_eq!(2, errs.len());
}

#[test]
fn test_is_empty_agrees_with_len() {
    let mut errs: Errors<TestError> = Errors::new();
    assert_eq!(errs.is_empty(), errs.len() == 0);
    for i in 0..5 {
        errs.append(TestError::Numeric(i));
        assert_eq!(errs.is_empty(), errs.len() == 0);
        assert_eq!((i + 1) as usize, errs.len());
    }
}

#[test]
fn test_from_equals_repeated_append() {
    let bulk = Errors::from(vec![TestError::Numeric(3), TestError::Numeric(1), TestError::Numeric(3)]);
    assert_eq!(numeric(&[3, 1, 3]), bulk);
    assert_ne!(numeric(&[1, 3, 3]), bulk);
}

#[test]
fn test_display_has_one_line_per_error_after_the_header() {
    for count in 1..50 {
        let values: Vec<i32> = (1..=count).collect();
        let errs = numeric(&values);
        let text = errs.display();
        let lines: Vec<&str> = text.lines().collect();
        assert_eq!(errs.len() + 1, lines.len());
        assert_eq!("error(s):", lines[0]);
        for (i, line) in lines.iter().skip(1).enumerate() {
            assert_eq!(format!("  numeric error: {}", values[i]), *line);
            assert!(line.starts_with("  "));
            assert!(!line.starts_with("   "));
        }
        assert!(!text.ends_with('\n'));
    }
}

#[test]
fn test_display_is_repeatable() {
    let errs = numeric(&[4, 5]);
    assert_eq!(errs.display(), errs.display());
    assert_eq!("error(s):\n  numeric error: 4\n  numeric error: 5", errs.display());
}

#[test]
fn test_list_of_lists_displays_inner_reports() {
    let inner = numeric(&[1]);
    let outer = Errors::from(vec![inner]);
    assert_eq!("error(s):\n  error(s):\n  numeric error: 1", outer.display());
}
