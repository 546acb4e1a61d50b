use assertr::assert_that::assert_that;
use assertr::assertions::string::StrAssertions;

#[test]
fn string_panics_when_expected_is_not_blank() {
    let a = assert_that("a").with_expression("\"a\"").is_blank();
    assert_eq!(
        a.panic_message().unwrap(),
        "-------- assertr --------\nExpression: `\"a\"`\n\nActual: \"a\"\n\nis not blank\n-------- assertr --------\n"
    );
}

#[test]
fn panics_when_not_ascii_blank() {
    let a = assert_that("a").with_expression("\"a\"").is_blank_ascii();
    assert_eq!(
        a.panic_message().unwrap(),
        "-------- assertr --------\nExpression: `\"a\"`\n\nActual: \"a\"\n\nis not ASCII blank\n-------- assertr --------\n"
    );
}

#[test]
fn identifies_unicode_whitespace_as_non_ascii_whitespace() {
    let a = assert_that("\u{a0}").with_expression("\"\\u{a0}\"").is_blank_ascii();
    assert_eq!(
        a.panic_message().unwrap(),
        "-------- assertr --------\nExpression: `\"\\u{a0}\"`\n\nActual: \"\\u{a0}\"\n\nis not ASCII blank\n-------- assertr --------\n"
    );
}

#[test]
fn panics_when_blank() {
    let a = assert_that("\t \n").with_expression("\"\\t \\n\"").is_not_blank();
    assert_eq!(
        a.panic_message().unwrap(),
        "-------- assertr --------\nExpression: `\"\\t \\n\"`\n\nActual: \"\\t \\n\"\n\nis unexpectedly blank\n-------- assertr --------\n"
    );
}

#[test]
fn string_panics_when_not_equal_to_ignoring_ascii_case() {
    let a = assert_that("foo").with_expression("\"foo\"").is_equal_to_ignoring_ascii_case("bar");
    assert_eq!(
        a.panic_message().unwrap(),
        "-------- assertr --------\nExpression: `\"foo\"`\n\nExpected: \"bar\"\n\n  Actual: \"foo\"\n\nDetails:\n  - Values differ even when ignoring ASCII case.\n-------- assertr --------\n"
    );
}

#[test]
fn string_panics_when_expected_is_not_contained() {
    let a = assert_that("foo bar baz").with_expression("\"foo bar baz\"").contains("42");
    assert_eq!(
        a.panic_message().unwrap(),
        "-------- assertr --------\nExpression: `\"foo bar baz\"`\n\nActual: \"foo bar baz\"\n\ndoes not contain\n\nExpected: \"42\"\n-------- assertr --------\n"
    );
}

#[test]
fn string_panics_when_expected_is_contained() {
    let a = assert_that("foo bar baz").with_expression("\"foo bar baz\"").does_not_contain("o b");
    assert_eq!(
        a.panic_message().unwrap(),
        "-------- assertr --------\nExpression: `\"foo bar baz\"`\n\nActual: \"foo bar baz\"\n\ncontains\n\nUnexpected: \"o b\"\n-------- assertr --------\n"
    );
}

#[test]
fn string_panics_when_start_is_different() {
    let a = assert_that("foo bar baz").with_expression("\"foo bar baz\"").starts_with("oo");
    assert_eq!(
        a.panic_message().unwrap(),
        "-------- assertr --------\nExpression: `\"foo bar baz\"`\n\nActual: \"foo bar baz\"\n\ndoes not start with\n\nExpected: \"oo\"\n-------- assertr --------\n"
    );
}

#[test]
fn string_panics_when_start_matches() {
    let a = assert_that("foo bar baz").with_expression("\"foo bar baz\"").does_not_start_with("foo");
    assert_eq!(
        a.panic_message().unwrap(),
        "-------- assertr --------\nExpression: `\"foo bar baz\"`\n\nActual: \"foo bar baz\"\n\nstarts with\n\nUnexpected: \"foo\"\n-------- assertr --------\n"
    );
}

#[test]
fn string_panics_when_end_is_different() {
    let a = assert_that("foo bar baz").with_expression("\"foo bar baz\"").ends_with("raz");
    assert_eq!(
        a.panic_message().unwrap(),
        "-------- assertr --------\nExpression: `\"foo bar baz\"`\n\nActual: \"foo bar baz\"\n\ndoes not end with\n\nExpected: \"raz\"\n-------- assertr --------\n"
    );
}

#[test]
fn string_panics_when_end_is_matches() {
    let a = assert_that("foo bar baz").with_expression("\"foo bar baz\"").does_not_end_with("z");
    assert_eq!(
        a.panic_message().unwrap(),
        "-------- assertr --------\nExpression: `\"foo bar baz\"`\n\nActual: \"foo bar baz\"\n\nends with\n\nUnexpected: \"z\"\n-------- assertr --------\n"
    );
}

#[test]
fn renders_the_string_subject_with_debug_format() {
    let a = assert_that(String::from("abc")).with_expression("String::from(\"abc\")").contains("z");
    assert_eq!(
        a.panic_message().unwrap(),
        "-------- assertr --------\nExpression: `String::from(\"abc\")`\n\nActual: \"abc\"\n\ndoes not contain\n\nExpected: \"z\"\n-------- assertr --------\n"
    );
}

#[test]
fn string_renders_original_operands_and_can_redact_them() {
    let subject = String::from("private-value");
    let operand = "other-value";
    let report = |relation: &str, role: &str| {
        format!(
            "-------- assertr --------\nExpression: `subject`\n\nActual: \"private-value\"\n\n{relation}\n\n{role}: \"other-value\"\n-------- assertr --------\n"
        )
    };
    let failures = assert_that(subject.clone()).with_expression("subject").with_capture().contains(operand).into_failures();
    assert_eq!(failures[0].to_human_readable_text(), report("does not contain", "Expected"));
    let failures = assert_that(subject.clone()).with_expression("subject").with_capture().starts_with(operand).into_failures();
    assert_eq!(failures[0].to_human_readable_text(), report("does not start with", "Expected"));
    let failures = assert_that(subject.clone()).with_expression("subject").with_capture().ends_with(operand).into_failures();
    assert_eq!(failures[0].to_human_readable_text(), report("does not end with", "Expected"));
    let failures = assert_that(subject.clone())
        .with_expression("subject")
        .with_capture()
        .is_equal_to_ignoring_ascii_case(operand)
        .into_failures();
    assert_eq!(
        failures[0].to_human_readable_text(),
        "-------- assertr --------\nExpression: `subject`\n\nExpected: \"other-value\"\n\n  Actual: \"private-value\"\n\nDetails:\n  - Values differ even when ignoring ASCII case.\n-------- assertr --------\n"
    );
    let failures = assert_that(subject.clone()).with_expression("subject").with_capture().does_not_contain("value").into_failures();
    assert_eq!(failures[0].unexpected.as_deref(), Some("\"value\""));
    let failures = assert_that(subject.clone()).with_expression("subject").with_capture().does_not_start_with("private").into_failures();
    assert_eq!(failures[0].unexpected.as_deref(), Some("\"private\""));
    let failures = assert_that(subject).with_expression("subject").with_capture().does_not_end_with("value").into_failures();
    assert_eq!(failures[0].unexpected.as_deref(), Some("\"value\""));
}

#[test]
fn blankness_agrees_with_the_standard_whitespace_property() {
    for code in (0u32..0x3100).chain([0xFEFF, 0x10FFFF]) {
        if let Some(c) = char::from_u32(code) {
            let text = c.to_string();
            let blank = assert_that(text.as_str()).with_capture().is_blank().passed();
            assert_eq!(blank, c.is_whitespace(), "U+{code:04X}");
        }
    }
}
