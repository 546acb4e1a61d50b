use assertr::assert_that::{assert_that, AssertThat, Expectation, Must};
use assertr::assertions::pattern::{DoesNotMatchPattern, Pattern, PatternAssertions};
use core::cell::Cell;

fn uses_pattern_assertions<A: PatternAssertions<i32>>(a: A) -> A {
    a.is_matching(Pattern::new("1", |v: &i32| *v == 1))
}

fn is_expectation<E: Expectation<i32>>(_: &E) {}

#[test]
fn pattern_trait_is_implemented_without_renderer_support() {
    let a: AssertThat<i32> = uses_pattern_assertions(assert_that(1));
    assert!(a.passed());
    let is_one: fn(&i32) -> bool = |v| *v == 1;
    is_expectation(&DoesNotMatchPattern::new(Pattern::new("1", is_one)));
    is_expectation(&Pattern::new("1", is_one));
}

#[test]
fn pattern_fluent_alias_is_as_expected() {
    assert!(Some(42).must().be_matching(Pattern::new("Some(42)", |v: &Option<i32>| matches!(v, Some(42)))).passed());
    assert!(Some(42).must().not_be_matching(Pattern::new("None", |v: &Option<i32>| v.is_none())).passed());
}

#[test]
fn supports_pattern_guards() {
    assert!(assert_that(Some(2))
        .matches(Pattern::new("Some(value) if *value > 0", |v: &Option<i32>| matches!(v, Some(value) if *value > 0)))
        .passed());
}

#[test]
fn missing_subject_keeps_the_unexpected_pattern_without_running_its_guard() {
    let calls = Cell::new(0);
    let forbidden = DoesNotMatchPattern::new(Pattern::new("Some(_) if { .. }", |v: &Option<i32>| {
        matches!(v, Some(_) if {
            calls.set(calls.get() + 1);
            true
        })
    }));
    assert!(assert_that(None::<i32>).matches(&forbidden).passed());
    assert_eq!(calls.get(), 0);
    let failures = assert_that(Some(1)).with_capture().matches(&forbidden).into_failures();
    assert_eq!(failures.len(), 1);
    assert_eq!(failures[0].relation.as_deref(), Some("matches the pattern"));
    assert!(failures[0].expected.is_none());
    assert_eq!(failures[0].unexpected.as_deref(), Some("Some(_) if { .. }"));
    assert_eq!(calls.get(), 1);
}

#[test]
fn pattern_panics_when_not_matching() {
    let a = assert_that(Some(1)).with_expression("Some(1)").is_matching(Pattern::new("None", |v: &Option<i32>| v.is_none()));
    assert_eq!(
        a.panic_message().unwrap(),
        "-------- assertr --------\nExpression: `Some(1)`\n\nActual: Some(\n    1,\n)\n\ndoes not match the pattern\n\nExpected: None\n-------- assertr --------\n"
    );
}

#[test]
fn pattern_panics_when_matching_unexpectedly() {
    let failures = assert_that(Some(1))
        .with_capture()
        .is_not_matching(Pattern::new("Some(_)", |v: &Option<i32>| v.is_some()))
        .into_failures();
    assert_eq!(failures[0].relation.as_deref(), Some("matches the pattern"));
    assert_eq!(failures[0].unexpected.as_deref(), Some("Some(_)"));
}

#[test]
fn pattern_accepts_a_guard_that_consumes_its_capture() {
    let owned = String::from("guard");
    let pattern = Pattern::new("Some(_) if consumed", move |v: &Option<i32>| {
        let taken = owned;
        v.is_some() && taken.len() == 5
    });
    let a = assert_that(Some(1)).is_matching(pattern);
    assert!(a.passed());
    assert_eq!(a.assertion_count_of(), 1);
}

#[test]
fn pattern_in_capture_mode_reports_the_pretty_subject() {
    let failures = assert_that(Some(42))
        .with_expression("Some(42)")
        .with_capture()
        .is_not_matching(Pattern::new("Some(42)", |v: &Option<i32>| matches!(v, Some(42))))
        .into_failures();
    assert_eq!(failures.len(), 1);
    assert_eq!(
        failures[0].to_human_readable_text(),
        "-------- assertr --------\nExpression: `Some(42)`\n\nActual: Some(\n    42,\n)\n\nmatches the pattern\n\nUnexpected: Some(42)\n-------- assertr --------\n"
    );
}

#[test]
fn explaining_a_missing_subject_runs_no_guard() {
    let calls = Cell::new(0);
    let forbidden = DoesNotMatchPattern::new(Pattern::new("Some(_)", |_: &Option<i32>| {
        calls.set(calls.get() + 1);
        true
    }));
    let f = forbidden.explain_missing();
    assert_eq!(f.relation.as_deref(), Some("does not match the pattern"));
    assert_eq!(f.expected, None);
    assert_eq!(f.unexpected.as_deref(), Some("Some(_)"));
    assert_eq!(calls.get(), 0);
    let wanted = Pattern::new("None", |v: &Option<i32>| v.is_none()).explain_missing();
    assert_eq!(wanted.relation.as_deref(), Some("matches the pattern"));
    assert_eq!(wanted.expected.as_deref(), Some("None"));
}

#[derive(Debug, PartialEq)]
enum TestError {
    MissingQueryParams,
    MissingTokenQueryParam,
}

impl assertr::render::Render for TestError {
    fn render(&self) -> String {
        format!("{:?}", self)
    }
}

#[test]
fn panics_with_the_expected_pattern_and_rendered_actual_value() {
    let a = assert_that(Result::<(), TestError>::Err(TestError::MissingTokenQueryParam))
        .with_expression("Result::<(), TestError>::Err(TestError::MissingTokenQueryParam)")
        .is_matching(Pattern::new("Err(TestError::MissingQueryParams)", |v: &Result<(), TestError>| {
            matches!(v, Err(TestError::MissingQueryParams))
        }));
    assert_eq!(
        a.panic_message().unwrap(),
        "-------- assertr --------\nExpression: `Result::<(), TestError>::Err(TestError::MissingTokenQueryParam)`\n\nActual: Err(\n    MissingTokenQueryParam,\n)\n\ndoes not match the pattern\n\nExpected: Err(TestError::MissingQueryParams)\n-------- assertr --------\n"
    );
}

#[test]
fn panics_with_the_unexpected_pattern_and_rendered_actual_value() {
    let a = assert_that(Result::<(), TestError>::Err(TestError::MissingQueryParams))
        .with_expression("Result::<(), TestError>::Err(TestError::MissingQueryParams)")
        .is_not_matching(Pattern::new("Err(TestError::MissingQueryParams)", |v: &Result<(), TestError>| {
            matches!(v, Err(TestError::MissingQueryParams))
        }));
    assert_eq!(
        a.panic_message().unwrap(),
        "-------- assertr --------\nExpression: `Result::<(), TestError>::Err(TestError::MissingQueryParams)`\n\nActual: Err(\n    MissingQueryParams,\n)\n\nmatches the pattern\n\nUnexpected: Err(TestError::MissingQueryParams)\n-------- assertr --------\n"
    );
}

#[test]
fn pattern_works_in_capture_mode() {
    let failures = assert_that(Some(42))
        .with_expression("Some(42)")
        .with_capture()
        .is_matching(Pattern::new("None", |v: &Option<i32>| v.is_none()))
        .into_failures();
    assert_eq!(failures.len(), 1);
    assert_eq!(
        failures[0].to_human_readable_text(),
        "-------- assertr --------\nExpression: `Some(42)`\n\nActual: Some(\n    42,\n)\n\ndoes not match the pattern\n\nExpected: None\n-------- assertr --------\n"
    );
    let failures = assert_that(Some(42))
        .with_capture()
        .is_not_matching(Pattern::new("Some(43)", |v: &Option<i32>| matches!(v, Some(43))))
        .into_failures();
    assert!(failures.is_empty());
}

#[test]
fn pattern_uses_the_active_renderer() {
    struct Opaque(u8);
    impl assertr::render::Render for Opaque {
        fn render(&self) -> String {
            format!("Opaque({})", self.0)
        }
    }
    let a = assert_that(Opaque(1)).with_expression("Opaque(1)").is_matching(Pattern::new("Opaque(2)", |v: &Opaque| v.0 == 2));
    assert_eq!(
        a.panic_message().unwrap(),
        "-------- assertr --------\nExpression: `Opaque(1)`\n\nActual: Opaque(1)\n\ndoes not match the pattern\n\nExpected: Opaque(2)\n-------- assertr --------\n"
    );
    let a = assert_that(Opaque(1)).with_expression("Opaque(1)").is_not_matching(Pattern::new("Opaque(1)", |v: &Opaque| v.0 == 1));
    assert_eq!(
        a.panic_message().unwrap(),
        "-------- assertr --------\nExpression: `Opaque(1)`\n\nActual: Opaque(1)\n\nmatches the pattern\n\nUnexpected: Opaque(1)\n-------- assertr --------\n"
    );
}
