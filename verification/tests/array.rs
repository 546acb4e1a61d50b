use assertr::assert_that::{assert_that, Must};
use assertr::assertions::array::ArrayAssertions;

#[test]
fn array_succeeds_when_value_is_present() {
    assert!(assert_that([1, 2, 3]).contains(2).passed());
}

#[test]
fn array_succeeds_when_value_is_absent() {
    assert!(assert_that([1, 2, 3]).does_not_contain(4).passed());
}

#[test]
fn array_succeeds_when_exact_match() {
    assert!(assert_that([1, 2, 3]).contains_exactly(&[1, 2, 3]).passed());
    assert!(assert_that([1, 2, 3]).contains_exactly([1, 2, 3].as_slice()).passed());
    assert!(assert_that(["foo".to_owned()]).contains_exactly(&["foo"]).passed());
}

#[test]
fn succeeds_when_values_match() {
    assert!(assert_that([1, 2, 3]).contains_exactly_in_any_order(&[2, 3, 1]).passed());
}

#[test]
fn succeeds_when_predicates_match() {
    let predicates: [fn(&i32) -> bool; 3] = [|it| *it == 3, |it| *it == 1, |it| *it == 2];
    assert!(assert_that([1, 2, 3]).contains_exactly_matching_in_any_order(predicates.as_slice()).passed());
}

#[test]
fn array_fails_when_value_is_missing() {
    let failures = assert_that([1, 2, 3]).with_capture().contains(4).into_failures();
    assert_eq!(failures.len(), 1);
    assert_eq!(
        failures[0].to_human_readable_text(),
        "-------- assertr --------\nActual: [\n    1,\n    2,\n    3,\n]\n\ndoes not contain expected: 4\n-------- assertr --------\n"
    );
}

#[test]
fn array_panics_when_value_is_present() {
    let failures = assert_that([1, 2, 3]).with_capture().does_not_contain(2).into_failures();
    assert_eq!(
        failures[0].to_human_readable_text(),
        "-------- assertr --------\nActual: [\n    1,\n    2,\n    3,\n]\n\ncontains unexpected: 2\n-------- assertr --------\n"
    );
}

#[test]
fn array_fluent_aliases_delegate() {
    assert!([1, 2, 3].must().contain(2).not_contain(5).contain_exactly(&[1, 2, 3]).passed());
}

#[test]
fn array_panics_when_value_is_missing() {
    let a = assert_that([1, 2, 3]).contains(4);
    assert_eq!(
        a.panic_message().unwrap(),
        "-------- assertr --------\nActual: [\n    1,\n    2,\n    3,\n]\n\ndoes not contain expected: 4\n-------- assertr --------\n"
    );
    let failures = assert_that([1, 2, 3]).with_capture().contains_exactly_in_any_order(&[2, 3, 4]).into_failures();
    assert_eq!(failures.len(), 1);
    let text = failures[0].to_human_readable_text();
    assert!(text.contains("Actual: [\n    1,\n    2,\n    3,\n]"));
    assert!(text.contains("Elements not found: [\n    4,\n]"));
    assert!(text.contains("Elements not expected: [\n    1,\n]"));
}

#[test]
fn array_panics_when_not_exact_match() {
    let failures = assert_that([1, 2, 3]).with_capture().contains_exactly(&[3, 4, 1]).into_failures();
    assert_eq!(failures.len(), 1);
    let f = &failures[0];
    assert_eq!(f.relation.as_deref(), Some("did not exactly match"));
    assert_eq!(f.expected.as_deref(), Some("[\n    3,\n    4,\n    1,\n]"));
    let text = f.to_human_readable_text();
    assert!(text.contains("Elements not expected: [\n    2,\n]"));
    assert!(text.contains("Elements not found: [\n    4,\n]"));
}

#[test]
fn panics_when_data_is_unmatched() {
    let predicates: [fn(&i32) -> bool; 3] = [|it| *it == 2, |it| *it == 3, |it| *it == 4];
    let failures = assert_that([1, 2, 3]).with_capture().contains_exactly_matching_in_any_order(&predicates).into_failures();
    assert_eq!(failures.len(), 1);
    assert_eq!(failures[0].relation.as_deref(), Some("did not exactly match predicates in any order."));
    assert!(failures[0].to_human_readable_text().contains("Elements not matched: [\n    1,\n]"));
}
