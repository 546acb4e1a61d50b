use assertr::assert_that::{assert_that, AssertThat, Expectation, Must};
use assertr::assertions::character::{
    CharAssertions, EqualToIgnoringAsciiCase, IsAsciiLowercase, IsAsciiUppercase, IsLowercase, IsUppercase,
};

fn uses_char_assertions<A: CharAssertions>(a: A) -> A {
    a.is_lowercase()
}

fn is_expectation<E: Expectation<char>>(_: &E) {}

#[test]
fn char_trait_is_implemented_without_renderer_support() {
    let a: AssertThat<char> = uses_char_assertions(assert_that('a'));
    assert!(a.passed());
    is_expectation(&EqualToIgnoringAsciiCase::new('a'));
    is_expectation(&IsLowercase);
    is_expectation(&IsUppercase);
    is_expectation(&IsAsciiLowercase);
    is_expectation(&IsAsciiUppercase);
}

#[test]
fn char_failures_use_the_active_renderer() {
    let failures = assert_that('A').with_capture().is_lowercase().into_failures();
    assert_eq!(failures.len(), 1);
    assert!(failures[0].to_human_readable_text().contains("Actual: 'A'"));
}

#[test]
fn char_fluent_alias_is_as_expected() {
    assert!('a'.must().be_equal_to_ignoring_ascii_case('A').passed());
    assert!('a'.must().be_lowercase().be_ascii_lowercase().passed());
    assert!('A'.must().be_uppercase().be_ascii_uppercase().passed());
}

#[test]
fn char_succeeds_when_equal_ignoring_ascii_case() {
    assert!(assert_that('a').is_equal_to_ignoring_ascii_case('A').passed());
}

#[test]
fn char_panics_when_not_equal_to_ignoring_ascii_case() {
    let a = assert_that('a').with_expression("'a'").is_equal_to_ignoring_ascii_case('B');
    assert_eq!(
        a.panic_message().unwrap(),
        "-------- assertr --------\nExpression: `'a'`\n\nActual: 'a'\n\nis not equal to ignoring ASCII case\n\nExpected: 'B'\n-------- assertr --------\n"
    );
}

#[test]
fn succeeds_when_lowercase() {
    assert!(assert_that('a').is_lowercase().passed());
}

#[test]
fn succeeds_when_uppercase() {
    assert!(assert_that('A').is_uppercase().passed());
}

#[test]
fn succeeds_when_ascii_lowercase() {
    assert!(assert_that('a').is_ascii_lowercase().passed());
}

#[test]
fn succeeds_when_ascii_uppercase() {
    assert!(assert_that('A').is_ascii_uppercase().passed());
}

#[test]
fn panics_when_not_ascii_lowercase() {
    let a = assert_that('A').with_expression("'A'").is_ascii_lowercase();
    assert_eq!(
        a.panic_message().unwrap(),
        "-------- assertr --------\nExpression: `'A'`\n\nActual: 'A'\n\nis not an ASCII lowercase letter\n-------- assertr --------\n"
    );
}

#[test]
fn non_ascii_letters_are_lowercase_but_not_ascii_lowercase() {
    assert!(assert_that('é').is_lowercase().passed());
    assert!(!assert_that('é').with_capture().is_ascii_lowercase().passed());
    assert!(!assert_that('ä').with_capture().is_equal_to_ignoring_ascii_case('Ä').passed());
}

#[test]
fn panics_when_not_lowercase() {
    let a = assert_that('A').with_expression("'A'").is_lowercase();
    assert_eq!(
        a.panic_message().unwrap(),
        "-------- assertr --------\nExpression: `'A'`\n\nActual: 'A'\n\nis not lowercase\n-------- assertr --------\n"
    );
}

#[test]
fn panics_when_not_uppercase() {
    let a = assert_that('a').with_expression("'a'").is_uppercase();
    assert_eq!(
        a.panic_message().unwrap(),
        "-------- assertr --------\nExpression: `'a'`\n\nActual: 'a'\n\nis not uppercase\n-------- assertr --------\n"
    );
}

#[test]
fn panics_when_not_ascii_uppercase() {
    let a = assert_that('a').with_expression("'a'").is_ascii_uppercase();
    assert_eq!(
        a.panic_message().unwrap(),
        "-------- assertr --------\nExpression: `'a'`\n\nActual: 'a'\n\nis not an ASCII uppercase letter\n-------- assertr --------\n"
    );
}

#[test]
fn char_caller_location_is_as_expected() {
    let here = "tests/character.rs:120:5";
    let checks: [fn(AssertThat<char>) -> AssertThat<char>; 5] = [
        |a| a.is_equal_to_ignoring_ascii_case('B'),
        |a| a.is_lowercase(),
        |a| a.is_uppercase(),
        |a| a.is_ascii_lowercase(),
        |a| a.is_ascii_uppercase(),
    ];
    let subjects = ['a', 'A', 'a', 'A', 'a'];
    for (check, subject) in checks.iter().zip(subjects) {
        let failures = check(assert_that(subject).with_location(here).with_capture()).into_failures();
        assert_eq!(failures.len(), 1);
        assert_eq!(failures[0].location.as_deref(), Some(here));
        assert!(failures[0].to_human_readable_text().starts_with("-------- assertr --------\nAssertion failed at tests/character.rs:120:5\n\n"));
    }
}
