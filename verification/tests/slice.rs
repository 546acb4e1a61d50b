use assertr::assert_that::assert_that;
use assertr::assertions::slice::SliceAssertions;

const ONE_TWO_THREE: &str = "[\n    1,\n    2,\n    3,\n]";

#[test]
fn slice_panics_when_no_element_matches() {
    let failures = assert_that([1, 2, 3].as_slice()).with_capture().contains_matching(|it: &i32| *it > 7).into_failures();
    assert_eq!(failures.len(), 1);
    assert_eq!(
        failures[0].to_human_readable_text(),
        "-------- assertr --------\nActual: [\n    1,\n    2,\n    3,\n]\n\ndoes not contain an element matching the given predicate.\n-------- assertr --------\n"
    );
}

#[test]
fn panics_when_elements_match_and_lists_them() {
    let failures = assert_that([1, 2, 3].as_slice())
        .with_capture()
        .does_not_contain_matching(|it: &i32| *it % 2 == 1)
        .into_failures();
    assert_eq!(failures.len(), 1);
    assert_eq!(
        failures[0].to_human_readable_text(),
        "-------- assertr --------\nActual: [\n    1,\n    2,\n    3,\n]\n\ncontains elements matching the given predicate: [\n    1,\n    3,\n]\n-------- assertr --------\n"
    );
}

#[test]
fn panics_when_elements_satisfy_and_lists_them() {
    let failures = assert_that([1, 2, 3].as_slice())
        .with_capture()
        .does_not_contain_matching(|it: &i32| *it > 1)
        .into_failures();
    assert_eq!(failures.len(), 1);
    assert_eq!(failures[0].actual.as_deref(), Some(ONE_TWO_THREE));
    assert!(failures[0].relation.as_deref().unwrap().ends_with(": [\n    2,\n    3,\n]"));
}

#[test]
fn slice_panics_when_value_is_present() {
    let failures = assert_that([1, 2, 3].as_slice()).with_capture().does_not_contain(2).into_failures();
    assert_eq!(failures.len(), 1);
    assert_eq!(
        failures[0].to_human_readable_text(),
        "-------- assertr --------\nActual: [\n    1,\n    2,\n    3,\n]\n\ncontains unexpected: 2\n-------- assertr --------\n"
    );
}

#[test]
fn slice_panics_when_not_exact_match() {
    let failures = assert_that([1, 2, 3].as_slice()).with_capture().contains_exactly(&[2, 3, 4]).into_failures();
    assert_eq!(failures.len(), 1);
    let f = &failures[0];
    assert_eq!(f.actual.as_deref(), Some(ONE_TWO_THREE));
    assert_eq!(f.relation.as_deref(), Some("did not exactly match"));
    assert_eq!(f.expected.as_deref(), Some("[\n    2,\n    3,\n    4,\n]"));
    assert_eq!(f.facts[0].label.as_deref(), Some("Elements not expected"));
    assert_eq!(f.facts[0].text, "[\n    1,\n]");
    assert_eq!(f.facts[1].label.as_deref(), Some("Elements not found"));
    assert_eq!(f.facts[1].text, "[\n    4,\n]");
}

#[test]
fn panics_with_detail_message_when_only_differing_in_order() {
    let failures = assert_that([1, 2, 3].as_slice()).with_capture().contains_exactly(&[3, 2, 1]).into_failures();
    assert_eq!(failures.len(), 1);
    let f = &failures[0];
    assert_eq!(f.expected.as_deref(), Some("[\n    3,\n    2,\n    1,\n]"));
    assert_eq!(f.facts.len(), 1);
    assert_eq!(f.facts[0].label, None);
    assert_eq!(f.facts[0].text, "The order of elements does not match!");
}

#[test]
fn panics_when_elements_only_match_in_a_different_order() {
    let predicates: [fn(&i32) -> bool; 3] = [|it| *it == 1, |it| *it == 3, |it| *it == 2];
    let failures = assert_that([1, 2, 3].as_slice()).with_capture().contains_exactly_matching(&predicates).into_failures();
    assert_eq!(failures.len(), 1);
    let f = &failures[0];
    assert_eq!(f.actual.as_deref(), Some(ONE_TWO_THREE));
    assert_eq!(f.relation.as_deref(), Some("did not exactly match predicates."));
    assert_eq!(f.facts.len(), 2);
    assert_eq!(f.facts[0].text, "Element at index 1 does not match its predicate: 2");
    assert_eq!(f.facts[1].text, "Element at index 2 does not match its predicate: 3");
}

#[test]
fn slice_panics_when_lengths_differ() {
    let predicates: [fn(&i32) -> bool; 2] = [|it| *it == 1, |it| *it == 2];
    let failures = assert_that([1, 2, 3].as_slice()).with_capture().contains_exactly_matching(&predicates).into_failures();
    assert_eq!(failures.len(), 1);
    assert_eq!(failures[0].relation.as_deref(), Some("did not exactly match predicates."));
    assert_eq!(failures[0].facts[0].text, "Number of elements (3) does not match number of predicates (2)!");
}

#[test]
fn panics_when_slice_contains_unknown_data() {
    let failures = assert_that([1, 2, 3].as_slice()).with_capture().contains_exactly_in_any_order(&[2, 3, 4]).into_failures();
    assert_eq!(failures.len(), 1);
    let f = &failures[0];
    assert_eq!(f.actual.as_deref(), Some(ONE_TWO_THREE));
    assert_eq!(f.expected.as_deref(), Some("[\n    2,\n    3,\n    4,\n]"));
    let text = f.to_human_readable_text();
    assert!(text.contains("Elements not found: [\n    4,\n]"));
    assert!(text.contains("Elements not expected: [\n    1,\n]"));
}

#[test]
fn panics_when_slice_contains_non_matching_data() {
    let predicates: [fn(&i32) -> bool; 3] = [|it| *it == 2, |it| *it == 3, |it| *it == 4];
    let failures = assert_that([1, 2, 3].as_slice())
        .with_capture()
        .contains_exactly_in_any_order_matching(&predicates)
        .into_failures();
    assert_eq!(failures.len(), 1);
    let f = &failures[0];
    assert_eq!(f.relation.as_deref(), Some("did not exactly match predicates in any order."));
    let text = f.to_human_readable_text();
    assert!(text.contains("Elements not matched: [\n    1,\n]"));
    assert!(text.contains("Predicates not matched: 1"));
}
