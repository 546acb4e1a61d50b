use assertr::assert_that::{assert_that, AssertThat, Expectation, Must};
use assertr::assertions::display::{DisplayAssertions, HasDisplayValue};

fn uses_display_assertions<A: DisplayAssertions>(a: A) -> A {
    a.has_display_value(42)
}

fn is_expectation<T: ?Sized, E: Expectation<T>>(_: &E) {}

#[test]
fn display_trait_is_implemented_without_renderer_support() {
    let a: AssertThat<i32> = uses_display_assertions(assert_that(42));
    assert!(a.passed());
    is_expectation::<i32, _>(&HasDisplayValue::new(42));
}

#[test]
fn display_fluent_alias_is_as_expected() {
    assert!(42.must().have_display_value(42).passed());
}

#[test]
fn quotes_and_escape_characters_are_significant() {
    for value in ["\"foo\"", "\"foo", "foo\"", "\n", "\\n", "é🦀"] {
        assert!(assert_that(value).has_display_value(value).passed());
        let failures = assert_that(value).with_capture().has_display_value("foo").into_failures();
        assert_eq!(failures.len(), 1);
    }
    assert!(assert_that(42).has_display_value("42").passed());
}

#[test]
fn display_succeeds_when_equal_using_same_value() {
    assert!(assert_that(42).has_display_value(42).passed());
}

#[test]
fn display_succeeds_when_equal_using_string_representation() {
    assert!(assert_that(42).has_display_value("42").passed());
    assert!(assert_that(true).has_display_value("true").passed());
    assert!(assert_that('x').has_display_value(String::from("x")).passed());
}

#[test]
fn display_mismatch_shows_both_texts_quoted() {
    let failures = assert_that(42).with_capture().has_display_value("foo").into_failures();
    assert_eq!(failures[0].actual.as_deref(), Some("\"42\""));
    assert_eq!(failures[0].expected.as_deref(), Some("\"foo\""));
}

#[test]
fn display_panics_when_not_equal() {
    let a = assert_that(42).with_expression("42").has_display_value("foo");
    assert_eq!(
        a.panic_message().unwrap(),
        "-------- assertr --------\nExpression: `42`\n\nExpected: \"foo\"\n\n  Actual: \"42\"\n-------- assertr --------\n"
    );
    let a = assert_that("foo:bar").with_expression("\"foo:bar\"").has_display_value("foo:baz");
    assert_eq!(
        a.panic_message().unwrap(),
        "-------- assertr --------\nExpression: `\"foo:bar\"`\n\nExpected: \"foo:baz\"\n\n  Actual: \"foo:bar\"\n-------- assertr --------\n"
    );
}

#[test]
fn display_caller_location_is_as_expected() {
    let here = "tests/display.rs:1:1";
    let failures = assert_that(42).with_location(here).with_capture().has_display_value("foo").into_failures();
    assert_eq!(failures[0].location.as_deref(), Some(here));
}
