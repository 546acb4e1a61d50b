use assertr::assert_that::assert_that;
use assertr::assertions::into_iterator::IntoIteratorAssertions;
use assertr::assertions::iterator::IteratorAssertions;

#[test]
fn iter_succeeds_when_value_is_present() {
    let values = [1, 2, 3];
    let iter = values.iter();
    assert!(assert_that(iter).contains(&1).passed());
    let values = vec![1, 2, 3, 42];
    assert!(assert_that(values)
        .into_iter_contains(1)
        .into_iter_contains(42)
        .into_iter_contains(3)
        .into_iter_contains(2)
        .passed());
}

#[test]
fn iter_compiles_for_comparable_but_different_type() {
    let values = vec!["foo"];
    assert!(assert_that(values).into_iter_contains("foo".to_string()).passed());
    let values = vec!["foo"];
    assert!(assert_that(values).into_iter_does_not_contain("bar".to_string()).passed());
}

#[test]
fn iter_succeeds_when_value_is_absent() {
    let values = [1, 2, 3];
    let iter = values.iter();
    assert!(assert_that(iter).does_not_contain(&4).passed());
    let values = vec![1, 2, 3, 42];
    assert!(assert_that(values).into_iter_does_not_contain(5).into_iter_does_not_contain(99).passed());
}

#[test]
fn iter_panics_when_value_is_present() {
    let values = [1, 2, 3];
    let failures = assert_that(values.iter()).with_capture().does_not_contain(&2).into_failures();
    assert_eq!(failures.len(), 1);
    assert_eq!(failures[0].relation.as_deref(), Some("contains"));
    assert_eq!(failures[0].actual.as_deref(), Some("[\n    1,\n    2,\n]"));
    assert_eq!(failures[0].unexpected.as_deref(), Some("2"));
}
