use assertr::assert_that::{assert_that, Must};
use assertr::assertions::str_slice::StrSliceAssertions;

fn report(body: &str) -> String {
    format!("-------- assertr --------\n{body}\n-------- assertr --------\n")
}

const NOT_BLANK: &str = "Actual: \"a\"\n\ncontains non-whitespace characters.\n\nExpected it to be empty or only containing whitespace.";

#[test]
fn str_slice_succeeds_when_expected_is_blank() {
    assert!("".must().be_blank().passed());
    assert!(" ".must().be_blank().passed());
    assert!("\t \n".must().be_blank().passed());
}

#[test]
fn str_slice_panics_when_expected_is_not_blank() {
    let a = "a".must().be_blank();
    assert_eq!(a.panic_message().unwrap(), report(NOT_BLANK));
}

#[test]
fn str_slice_succeeds_when_blank() {
    assert!("".must().be_blank_ascii().passed());
    assert!(" ".must().be_blank_ascii().passed());
    assert!("\t \n".must().be_blank_ascii().passed());
}

#[test]
fn panics_when_not_blank() {
    let a = "a".must().be_blank_ascii();
    assert_eq!(a.panic_message().unwrap(), report(NOT_BLANK));
}

#[test]
fn str_slice_succeeds_when_expected_is_contained() {
    assert!(assert_that("foobar").contains("foo").contains("bar").contains("oob").passed());
}

#[test]
fn str_slice_panics_when_expected_is_not_contained() {
    let a = assert_that("foo bar baz").contains("42");
    assert_eq!(
        a.panic_message().unwrap(),
        report("Actual: \"foo bar baz\"\n\ndoes not contain\n\nExpected: \"42\"")
    );
}

#[test]
fn str_slice_succeeds_when_expected_is_not_contained() {
    assert!(assert_that("foobar").does_not_contain("42").passed());
}

#[test]
fn str_slice_panics_when_expected_is_contained() {
    let a = assert_that("foo bar baz").does_not_contain("o b");
    assert_eq!(
        a.panic_message().unwrap(),
        report("Actual: \"foo bar baz\"\n\ncontains\n\nUnexpected: \"o b\"")
    );
}

#[test]
fn str_slice_succeeds_when_start_matches() {
    assert!(assert_that("foo bar baz").starts_with("foo b").passed());
}

#[test]
fn str_slice_panics_when_start_is_different() {
    let a = assert_that("foo bar baz").starts_with("oo");
    assert_eq!(
        a.panic_message().unwrap(),
        report("Actual: \"foo bar baz\"\n\ndoes not start with\n\nExpected: \"oo\"")
    );
}

#[test]
fn str_slice_succeeds_when_start_does_not_match() {
    assert!(assert_that("foo bar baz").does_not_start_with("oo").passed());
}

#[test]
fn str_slice_panics_when_start_matches() {
    let a = assert_that("foo bar baz").does_not_start_with("foo");
    assert_eq!(
        a.panic_message().unwrap(),
        report("Actual: \"foo bar baz\"\n\nstarts with\n\nUnexpected: \"foo\"")
    );
}

#[test]
fn str_slice_succeeds_when_end_matches() {
    assert!(assert_that("foo bar baz").ends_with("r baz").passed());
}

#[test]
fn str_slice_panics_when_end_is_different() {
    let a = assert_that("foo bar baz").ends_with("raz");
    assert_eq!(
        a.panic_message().unwrap(),
        report("Actual: \"foo bar baz\"\n\ndoes not end with\n\nExpected: \"raz\"")
    );
}

#[test]
fn str_slice_succeeds_when_end_does_match() {
    assert!(assert_that("foo bar baz").does_not_end_with("bar").passed());
}

#[test]
fn str_slice_panics_when_end_is_matches() {
    let a = assert_that("foo bar baz").does_not_end_with("z");
    assert_eq!(
        a.panic_message().unwrap(),
        report("Actual: \"foo bar baz\"\n\nends with\n\nUnexpected: \"z\"")
    );
}

#[test]
fn str_slice_fluent_aliases_are_as_expected() {
    assert!("foo bar".must().contain("o b").not_contain("x").start_with("foo").not_start_with("bar").end_with("bar").not_end_with("foo").passed());
}
