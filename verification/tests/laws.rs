use assertr::assert_that::assert_that;
use assertr::assertions::iterator::IteratorAssertions;
use assertr::assertions::length::LengthAssertions;
use assertr::assertions::partial_eq::PartialEqAssertions;
use assertr::assertions::partial_ord::PartialOrdAssertions;
use assertr::assertions::range::{Edge, RangeBoundAssertions};
use assertr::assertions::string::StrAssertions;

const BANNER: &str = "-------- assertr --------\n";

#[test]
fn law_passing_check_changes_nothing_on_values() {
    let a = assert_that(1).with_capture().is_equal_to(2);
    let before = a.failures().len();
    let a = a.is_equal_to(1).is_less_than(5);
    assert_eq!(a.failures().len(), before);
    assert_eq!(*a.actual(), 1);
}

#[test]
fn law_capture_mode_records_every_failure_in_order() {
    let failures = assert_that(1)
        .with_capture()
        .with_expression("one")
        .is_equal_to(2)
        .is_greater_than(3)
        .into_failures();
    assert_eq!(failures.len(), 2);
    assert_eq!(failures[0].expected.as_deref(), Some("2"));
    assert_eq!(failures[1].expected.as_deref(), Some("3"));
    assert_eq!(failures[1].expression.as_deref(), Some("one"));
}

#[test]
fn law_panic_mode_stops_at_the_first_failure() {
    let a = assert_that(1).is_equal_to(2).is_greater_than(3).is_equal_to(4);
    assert_eq!(a.failures().len(), 1);
    assert_eq!(a.failures()[0].expected.as_deref(), Some("2"));
    assert_eq!(a.panic_message().unwrap(), a.failures()[0].to_human_readable_text());
}

#[test]
fn law_report_is_framed_by_banners_on_values() {
    let a = assert_that("abc").with_capture().ends_with("x").contains("zz");
    for failure in a.failures() {
        let text = failure.to_human_readable_text();
        assert!(text.starts_with(BANNER));
        assert!(text.ends_with(BANNER));
    }
}

#[test]
fn law_exact_order_implies_any_order_on_values() {
    assert!(assert_that([1, 2, 3].into_iter()).contains_exactly(&[1, 2, 3]).passed());
    assert!(assert_that([1, 2, 3].into_iter()).contains_exactly_in_any_order(&[1, 2, 3]).passed());
}

#[test]
fn law_any_order_ignores_the_order_of_elements_on_values() {
    assert!(assert_that([3, 1, 2].into_iter()).contains_exactly_in_any_order(&[1, 2, 3]).passed());
    assert!(assert_that([2, 3, 1].into_iter()).contains_exactly_in_any_order(&[1, 2, 3]).passed());
    assert!(!assert_that([3, 1, 1].into_iter()).with_capture().contains_exactly_in_any_order(&[1, 2, 3]).passed());
}

#[test]
fn law_exact_contents_imply_prefix_suffix_and_run_on_values() {
    assert!(assert_that([4, 5].into_iter()).starts_with(&[4, 5]).passed());
    assert!(assert_that([4, 5].into_iter()).ends_with(&[4, 5]).passed());
    assert!(assert_that([4, 5].into_iter()).contains_contiguous(&[4, 5]).passed());
}

#[test]
fn law_prefix_and_suffix_are_contained_on_values() {
    assert!(assert_that("hello, world!").starts_with("hello").contains("hello").passed());
    assert!(assert_that("hello, world!").ends_with("!").contains("!").passed());
}

#[test]
fn law_integer_ordering_on_values() {
    assert!(assert_that(1i64).is_less_than(2).is_less_or_equal_to(1).passed());
    assert!(assert_that(-3i64).is_greater_than(-4).is_greater_or_equal_to(-3).passed());
    assert!(!assert_that(2i64).with_capture().is_less_than(2).passed());
}

#[test]
fn law_integer_range_membership_on_values() {
    let r = (Edge::Excluded(1i64), Edge::Included(3i64));
    assert!(assert_that(r).contains_element(3).does_not_contain_element(1).contains_element(2).passed());
    assert!(assert_that(1i64..3).contains_element(1).does_not_contain_element(3).passed());
    assert!(assert_that((Edge::Unbounded, Edge::Excluded(0i64))).contains_element(i64::MIN).passed());
}

#[test]
fn law_string_length_counts_bytes_on_values() {
    assert!(assert_that("").has_length(0).is_empty().passed());
    assert!(assert_that("é").has_length(2).passed());
    assert!(assert_that("🦀").has_length(4).passed());
}

#[test]
fn law_any_order_is_multiset_equality_on_values() {
    assert!(assert_that([1, 1, 2].into_iter()).contains_exactly_in_any_order(&[1, 2, 1]).passed());
    assert!(!assert_that([1, 1, 2].into_iter()).with_capture().contains_exactly_in_any_order(&[1, 2, 2]).passed());
    assert!(!assert_that([1, 2].into_iter()).with_capture().contains_exactly_in_any_order(&[1, 2, 2]).passed());
}

#[test]
fn range_membership_checks_agree_and_complement_each_other() {
    for x in -2i64..8 {
        let contains = assert_that(1i64..5).with_capture().contains_element(x).passed();
        let fluent = assert_that(1i64..5).with_capture().contain_element(x).passed();
        let not_contains = assert_that(1i64..5).with_capture().does_not_contain_element(x).passed();
        assert_eq!(contains, fluent);
        assert_eq!(contains, !not_contains);
    }
    let full = (Edge::<String>::Unbounded, Edge::<String>::Unbounded);
    assert!(assert_that(full).contains_element(String::from("any")).passed());
}
