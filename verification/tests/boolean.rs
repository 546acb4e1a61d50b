use assertr::assert_that::{assert_that, AssertThat, Must};
use assertr::assertions::boolean::BoolAssertions;

fn uses_bool_assertions<A: BoolAssertions>(a: A) -> A {
    a.is_true()
}

#[test]
fn bool_trait_is_implemented_without_renderer_support() {
    let a: AssertThat<bool> = uses_bool_assertions(assert_that(true));
    assert!(a.passed());
}

#[test]
fn bool_failures_use_the_active_renderer() {
    let failures = assert_that(false).with_capture().is_true().into_failures();
    assert_eq!(failures.len(), 1);
    assert_eq!(failures[0].actual.as_deref(), Some("false"));
    assert!(failures[0].to_human_readable_text().contains("Actual: false"));
}

#[test]
fn bool_fluent_alias_is_as_expected() {
    assert!(true.must().be_true().passed());
    assert!(false.must().be_false().passed());
}

#[test]
fn succeeds_when_true() {
    assert!(assert_that(true).is_true().passed());
}

#[test]
fn succeeds_when_false() {
    assert!(assert_that(false).is_false().passed());
}

#[test]
fn panics_when_not_true() {
    let a = assert_that(false).with_expression("false").is_true();
    assert_eq!(
        a.panic_message().unwrap(),
        "-------- assertr --------\nExpression: `false`\n\nActual: false\n\nis not true\n-------- assertr --------\n"
    );
}

#[test]
fn panic_mode_keeps_only_the_first_failure() {
    let a = assert_that(false).is_true().is_true();
    assert_eq!(a.failures().len(), 1);
    let c = assert_that(false).with_capture().is_true().is_true();
    assert_eq!(c.failures().len(), 2);
}

#[test]
fn panics_when_false() {
    let a = assert_that(false).with_expression("false").is_true();
    assert_eq!(
        a.panic_message().unwrap(),
        "-------- assertr --------\nExpression: `false`\n\nActual: false\n\nis not true\n-------- assertr --------\n"
    );
}

#[test]
fn panics_when_true() {
    let a = assert_that(true).with_expression("true").is_false();
    assert_eq!(
        a.panic_message().unwrap(),
        "-------- assertr --------\nExpression: `true`\n\nActual: true\n\nis not false\n-------- assertr --------\n"
    );
}
