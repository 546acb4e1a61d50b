use assertr::assert_that::{assert_that, AssertThat, Must};
use assertr::assertions::exact_size::{
    settle_no_remaining_elements, settle_remaining_count, settle_remaining_elements, ExactSizeIteratorAssertions,
};
use assertr::assertions::partial_eq::PartialEqAssertions;

fn uses_exact_size<A: ExactSizeIteratorAssertions>(a: A) -> A {
    a.has_remaining_count(1)
}

#[test]
fn exact_size_trait_is_implemented_without_renderer_support() {
    let a: AssertThat<core::array::IntoIter<i32, 1>> = uses_exact_size(assert_that([1].into_iter()));
    assert!(a.passed());
}

#[test]
fn exact_size_fluent_alias_is_as_expected() {
    assert!([1, 2].into_iter().must().have_remaining_count(2).passed());
    assert!([1].into_iter().skip(1).must().have_no_remaining_elements().passed());
    assert!([1, 2].into_iter().must().have_remaining_elements().passed());
}

#[test]
fn succeeds_when_count_matches_without_advancing() {
    let mut iterator = [1, 2, 3].into_iter();
    assert!(assert_that(iterator.next()).is_equal_to(Some(1)).passed());
    assert!(assert_that(iterator).has_remaining_count(2).has_remaining_count(2).passed());
}

#[test]
fn succeeds_when_no_elements_remain() {
    assert!(assert_that([1].into_iter().skip(1)).has_no_remaining_elements().passed());
}

#[test]
fn succeeds_when_elements_remain_without_advancing() {
    assert!(assert_that([1, 2].into_iter()).has_remaining_elements().has_remaining_count(2).passed());
}

#[test]
fn exact_size_panics_when_count_differs() {
    let a = assert_that([1, 2].into_iter()).with_expression("[1, 2].into_iter()").has_remaining_count(3);
    let text = a.panic_message().unwrap();
    assert!(text.contains("does not have the expected remaining count"));
    assert!(text.contains("Expected: 3"));
    assert!(text.contains("Actual remaining count: 2"));
}

#[test]
fn exact_size_panics_when_elements_remain() {
    let failures = assert_that([1, 2].into_iter()).with_capture().has_no_remaining_elements().into_failures();
    assert_eq!(failures[0].relation.as_deref(), Some("unexpectedly has remaining elements"));
    let failures = assert_that([1].into_iter().skip(1)).with_capture().has_remaining_elements().into_failures();
    assert_eq!(failures[0].relation.as_deref(), Some("has no remaining elements"));
}

#[test]
fn panics_when_count_differs() {
    let a = assert_that([1, 2].into_iter()).with_expression("[1, 2].into_iter()").has_remaining_count(3);
    assert_eq!(
        a.panic_message().unwrap(),
        "-------- assertr --------\nExpression: `[1, 2].into_iter()`\n\ndoes not have the expected remaining count\n\nExpected: 3\n\nDetails:\n  - Actual remaining count: 2\n-------- assertr --------\n"
    );
}

#[test]
fn panics_when_elements_remain() {
    let a = assert_that([1, 2].into_iter()).with_expression("[1, 2].into_iter()").has_no_remaining_elements();
    assert_eq!(
        a.panic_message().unwrap(),
        "-------- assertr --------\nExpression: `[1, 2].into_iter()`\n\nunexpectedly has remaining elements\n\nDetails:\n  - Remaining count: 2\n-------- assertr --------\n"
    );
}

#[test]
fn panics_when_no_elements_remain() {
    let a = assert_that([1_i32; 0].into_iter()).with_expression("[1_i32; 0].into_iter()").has_remaining_elements();
    assert_eq!(
        a.panic_message().unwrap(),
        "-------- assertr --------\nExpression: `[1_i32; 0].into_iter()`\n\nhas no remaining elements\n-------- assertr --------\n"
    );
}

#[test]
fn settling_follows_the_reported_count() {
    assert!(settle_remaining_count(assert_that(()), 2, 2).passed());
    let failures = settle_remaining_count(assert_that(()).with_capture(), 2, 3).into_failures();
    assert_eq!(failures[0].facts[0].text, "2");
    assert_eq!(failures[0].expected.as_deref(), Some("3"));
    assert!(settle_no_remaining_elements(assert_that(()), 0).passed());
    assert!(!settle_no_remaining_elements(assert_that(()).with_capture(), 4).passed());
    assert!(settle_remaining_elements(assert_that(()), 1).passed());
    assert!(!settle_remaining_elements(assert_that(()).with_capture(), 0).passed());
}
