use assertr::assert_that::{assert_that, AssertThat, Expectation, Must};
use assertr::assertions::debug::{DebugAssertions, HasDebugString, HasDebugValue};
use assertr::render::Render;

#[derive(Debug)]
struct Person {
    age: u32,
    alive: bool,
}

impl Render for Person {
    fn render(&self) -> String {
        format!("{:?}", self)
    }
}

fn uses_debug_assertions<A: DebugAssertions>(a: A) -> A {
    a.has_debug_string("42")
}

fn is_expectation<T: ?Sized, E: Expectation<T>>(_: &E) {}

#[test]
fn debug_trait_is_implemented_without_renderer_support() {
    let a: AssertThat<i32> = uses_debug_assertions(assert_that(42));
    assert!(a.passed());
    is_expectation::<str, _>(&HasDebugString::new("42"));
    is_expectation::<i32, _>(&HasDebugValue::new(42));
}

#[test]
fn debug_fluent_alias_is_as_expected() {
    assert!(42.must().have_debug_string("42").passed());
    assert!(42.must().have_debug_value(42).passed());
}

#[test]
fn preserves_quotes_escapes_and_unicode_exactly() {
    for value in ["", "\"", "\\", "\n", "\r\n", "\t", "é🦀"] {
        let expected = format!("{value:?}");
        assert!(assert_that(value).has_debug_string(&expected).passed());
        assert!(assert_that(value).has_debug_value(value).passed());
        let without_quotes = &expected[1..expected.len() - 1];
        let failures = assert_that(value).with_capture().has_debug_string(without_quotes).into_failures();
        assert_eq!(failures.len(), 1);
    }
}

#[test]
fn custom_debug_with_a_lone_quote_is_not_normalized() {
    struct Quoted;
    impl Render for Quoted {
        fn render(&self) -> String {
            String::from("\"value")
        }
    }
    assert!(assert_that(Quoted).has_debug_string("\"value").passed());
    let failures = assert_that(Quoted).with_capture().has_debug_string("value").into_failures();
    assert_eq!(failures.len(), 1);
}

#[test]
fn debug_succeeds_when_equal() {
    assert!(assert_that(42).has_debug_string("42").passed());
    assert!(assert_that(42).has_debug_string(String::from("42")).passed());
    assert!(assert_that(42).has_debug_string(&String::from("42")).passed());
}

#[test]
fn succeeds_when_equal_on_static_string_containing_escaped_characters() {
    assert!(assert_that("\n").has_debug_string(r#""\n""#).passed());
}

#[test]
fn succeeds_when_equal_on_struct_debug_string_containing_escaped_characters() {
    #[derive(Debug)]
    struct Data(#[allow(dead_code)] &'static str);
    impl Render for Data {
        fn render(&self) -> String {
            format!("{:?}", self)
        }
    }
    assert!(assert_that(Data("\n")).has_debug_string(r#"Data("\n")"#).passed());
}

#[test]
fn debug_succeeds_when_equal_using_same_value() {
    assert!(assert_that(42).has_debug_value(42).passed());
}

#[test]
fn distinguishes_values_from_formatted_expectations() {
    let failures = assert_that(42).with_capture().has_debug_value("42").into_failures();
    assert_eq!(failures.len(), 1);
    assert!(assert_that(42).has_debug_string("42").passed());
}

#[test]
fn succeeds_when_equal_using_value() {
    assert!(assert_that(Person { age: 42, alive: true })
        .has_debug_value(Person { age: 42, alive: true })
        .passed());
}

#[test]
fn succeeds_when_equal_using_borrowed_value() {
    assert!(assert_that(Person { age: 42, alive: true })
        .has_debug_value(&Person { age: 42, alive: true })
        .passed());
}

#[test]
fn debug_succeeds_when_equal_using_string_representation() {
    assert!(assert_that(Person { age: 42, alive: true })
        .has_debug_string("Person { age: 42, alive: true }")
        .passed());
}

#[test]
fn debug_string_mismatch_shows_both_renderings_quoted() {
    let failures = assert_that(42).with_capture().has_debug_string("foo").into_failures();
    assert_eq!(failures.len(), 1);
    assert_eq!(failures[0].actual.as_deref(), Some("\"42\""));
    assert_eq!(failures[0].expected.as_deref(), Some("\"foo\""));
    assert_eq!(
        failures[0].to_human_readable_text(),
        "-------- assertr --------\nExpected: \"foo\"\n\n  Actual: \"42\"\n-------- assertr --------\n"
    );
}

#[test]
fn debug_panics_when_not_equal() {
    let a = assert_that(42).with_expression("42").has_debug_string("foo");
    assert_eq!(
        a.panic_message().unwrap(),
        "-------- assertr --------\nExpression: `42`\n\nExpected: \"foo\"\n\n  Actual: \"42\"\n-------- assertr --------\n"
    );
    let a = assert_that(42).with_expression("42").has_debug_value(43);
    assert_eq!(
        a.panic_message().unwrap(),
        "-------- assertr --------\nExpression: `42`\n\nExpected: \"43\"\n\n  Actual: \"42\"\n-------- assertr --------\n"
    );
    let a = assert_that(Person { age: 42, alive: true })
        .with_expression("Person { age: 42, alive: true, }")
        .has_debug_string("foo");
    assert_eq!(
        a.panic_message().unwrap(),
        "-------- assertr --------\nExpression: `Person { age: 42, alive: true, }`\n\nExpected: \"foo\"\n\n  Actual: \"Person { age: 42, alive: true }\"\n-------- assertr --------\n"
    );
}

#[test]
fn distinguishes_a_newline_from_a_literal_escape_sequence() {
    let a = assert_that("\n").with_expression("\"\\n\"").has_debug_value(r"\n");
    assert_eq!(
        a.panic_message().unwrap(),
        "-------- assertr --------\nExpression: `\"\\n\"`\n\nExpected: \"\\\"\\\\\\\\n\\\"\"\n\n  Actual: \"\\\"\\\\n\\\"\"\n-------- assertr --------\n"
    );
}

#[test]
fn debug_caller_location_is_as_expected() {
    let here = "tests/debug.rs:1:1";
    let failures = assert_that(42).with_location(here).with_capture().has_debug_string("foo").has_debug_value(43).into_failures();
    assert_eq!(failures.len(), 2);
    assert_eq!(failures[0].location.as_deref(), Some(here));
    assert_eq!(failures[1].location.as_deref(), Some(here));
}
