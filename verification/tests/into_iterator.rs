use assertr::assert_that::{assert_that, AssertThat, Must};
use assertr::assertions::into_iterator::IntoIteratorAssertions;
use assertr::assertions::partial_eq::PartialEqAssertions;
use assertr::assertions::partial_ord::PartialOrdAssertions;
use assertr::render::Render;

#[derive(Debug)]
struct RendererActual(i32);
#[derive(Debug)]
struct RendererExpected(i32);

impl PartialEq<RendererExpected> for RendererActual {
    fn eq(&self, other: &RendererExpected) -> bool {
        self.0 == other.0
    }
}

impl Render for RendererActual {
    fn render(&self) -> String {
        format!("actual<{}>", self.0)
    }
}

impl Render for RendererExpected {
    fn render(&self) -> String {
        format!("expected<{}>", self.0)
    }
}

fn is_two(it: AssertThat<&i32>) -> AssertThat<&i32> {
    it.is_equal_to(&2)
}

fn is_seven(it: AssertThat<&i32>) -> AssertThat<&i32> {
    it.is_equal_to(&7)
}

fn positive(it: AssertThat<&i32>) -> AssertThat<&i32> {
    it.is_greater_than(&0)
}

fn negative(it: AssertThat<&i32>) -> AssertThat<&i32> {
    it.is_less_than(&0)
}

fn is_at_most_two(it: &i32) -> bool {
    *it <= 2
}

fn is_one(it: &i32) -> bool {
    *it == 1
}

fn uses_into_iterator<A: IntoIteratorAssertions<i32>>(a: A) -> A {
    a.into_iter_contains(1)
}

#[test]
fn into_iterator_trait_is_implemented_without_renderer_support() {
    let a: AssertThat<Vec<i32>> = uses_into_iterator(assert_that(vec![1, 2]));
    assert!(a.passed());
}

#[test]
fn membership_uses_the_active_renderer_type() {
    assert!(assert_that(vec![RendererActual(1), RendererActual(2)])
        .into_iter_contains(RendererExpected(2))
        .into_iter_contains_all(&[RendererExpected(1)])
        .passed());
    let failures = assert_that(vec![RendererActual(1)])
        .with_capture()
        .into_iter_contains(RendererExpected(3))
        .into_failures();
    assert_eq!(failures[0].actual.as_deref(), Some("[\n    actual<1>,\n]"));
    assert_eq!(failures[0].relation.as_deref(), Some("does not contain expected: expected<3>"));
}

#[test]
fn into_iterator_fluent_alias_is_as_expected() {
    assert!(vec![1, 2, 3].must().into_iter_contain(2).passed());
    assert!(vec![1, 2, 3].must().into_iter_contain_all(&[3, 1]).into_iter_not_contain(4).passed());
    assert!(vec![1].must().into_iter_not_be_empty().into_iter_have_length(1).passed());
    assert!(Vec::<i32>::new().must().into_iter_be_empty().passed());
    assert!(vec![1, 2, 3].must().into_iter_contain_satisfying(is_two).passed());
}

#[test]
fn into_iterator_succeeds_when_expected_is_contained() {
    assert!(assert_that(vec![1, 2, 3]).into_iter_contains(2).passed());
}

#[test]
fn into_iterator_compiles_for_comparable_but_different_type() {
    assert!(assert_that(vec!["foo".to_owned()]).into_iter_contains("foo").passed());
    assert!(assert_that(vec!["foo".to_owned()]).into_iter_does_not_contain("bar").passed());
    assert!(assert_that(vec!["foo".to_owned()]).into_iter_contains_all(&["foo"]).passed());
}

#[test]
fn into_iterator_panics_when_expected_is_not_contained() {
    let failures = assert_that(vec![1, 2, 3]).with_capture().into_iter_contains(4).into_failures();
    assert_eq!(
        failures[0].to_human_readable_text(),
        "-------- assertr --------\nActual: [\n    1,\n    2,\n    3,\n]\n\ndoes not contain expected: 4\n\nDetails:\n  - Consumed 3 element(s).\n-------- assertr --------\n"
    );
}

#[test]
fn succeeds_when_every_expected_element_is_present() {
    assert!(assert_that(vec![1, 2, 3]).into_iter_contains_all(&[3, 1]).passed());
}

#[test]
fn succeeds_with_vec_input() {
    assert!(assert_that(vec![1, 2, 3]).into_iter_contains_all(vec![3, 1].as_slice()).passed());
}

#[test]
fn ignores_duplicate_expectations_and_extra_actual_elements() {
    assert!(assert_that(vec![1, 2, 3]).into_iter_contains_all(&[1, 1, 1]).passed());
}

#[test]
fn into_iterator_panics_when_any_expected_value_is_absent() {
    let failures = assert_that(vec![1, 2, 3]).with_capture().into_iter_contains_all(&[2, 4]).into_failures();
    assert_eq!(failures.len(), 1);
    assert_eq!(failures[0].relation.as_deref(), Some("does not contain all expected elements"));
    assert_eq!(failures[0].expected.as_deref(), Some("[\n    2,\n    4,\n]"));
    assert_eq!(failures[0].facts[0].label.as_deref(), Some("Elements not found"));
    assert_eq!(failures[0].facts[0].text, "[\n    4,\n]");
    assert_eq!(
        failures[0].to_human_readable_text(),
        "-------- assertr --------\nActual: [\n    1,\n    2,\n    3,\n]\n\ndoes not contain all expected elements\n\nExpected: [\n    2,\n    4,\n]\n\nElements not found: [\n    4,\n]\n\nDetails:\n  - Consumed 3 element(s).\n-------- assertr --------\n"
    );
}

#[test]
fn empty_expectation_still_creates_one_iterator_but_consumes_nothing() {
    let expected: [i32; 0] = [];
    assert!(assert_that(vec![1, 2, 3]).into_iter_contains_all(&expected).passed());
}

#[test]
fn into_iterator_succeeds_when_an_element_matches() {
    assert!(assert_that(vec![1, 2, 3]).into_iter_contains_matching(|it: &i32| *it % 2 == 0).passed());
}

#[test]
fn into_iterator_succeeds_when_an_element_satisfies() {
    assert!(assert_that(vec![1, 2, 3]).into_iter_contains_satisfying(is_two).passed());
}

#[test]
fn into_iterator_panics_when_no_element_satisfies() {
    let a = assert_that(vec![1, 2]).into_iter_contains_satisfying(is_seven);
    let text = a.panic_message().unwrap();
    assert!(text.contains("does not contain an element satisfying the assertions."));
    assert!(text.contains("Actual: [\n    1,\n    2,\n]"));
}

#[test]
fn into_iterator_succeeds_when_expected_is_not_contained() {
    assert!(assert_that(vec![1, 2, 3]).into_iter_does_not_contain(4).passed());
}

#[test]
fn into_iterator_succeeds_when_no_element_matches() {
    assert!(assert_that(vec![1, 2, 3]).into_iter_does_not_contain_matching(|it: &i32| *it > 7).passed());
}

#[test]
fn into_iterator_succeeds_when_no_element_satisfies() {
    assert!(assert_that(vec![1, 2, 3]).into_iter_does_not_contain_satisfying(is_seven).passed());
}

#[test]
fn into_iterator_succeeds_when_elements_match_in_another_order() {
    assert!(assert_that(vec![2, 1, 1]).into_iter_contains_exactly_in_any_order(&[1, 2, 1]).passed());
}

#[test]
fn supports_assertr_partial_eq_without_partial_eq() {
    assert!(assert_that(vec![RendererActual(1), RendererActual(2)])
        .into_iter_contains_exactly_in_any_order(&[RendererExpected(2), RendererExpected(1)])
        .passed());
}

#[test]
fn into_iterator_succeeds_when_a_maximum_matching_exists_for_overlapping_predicates() {
    let predicates: [fn(&i32) -> bool; 2] = [is_at_most_two, is_one];
    assert!(assert_that(vec![1, 2]).into_iter_contains_exactly_in_any_order_matching(&predicates).passed());
}

#[test]
fn into_iterator_succeeds_when_a_maximum_matching_exists() {
    let assertions: [fn(AssertThat<&i32>) -> AssertThat<&i32>; 2] = [positive, negative];
    assert!(assert_that(vec![-1, 1]).into_iter_contains_exactly_in_any_order_satisfying(&assertions).passed());
}

#[test]
fn into_iterator_panics_when_an_element_satisfies_no_assertion() {
    let assertions: [fn(AssertThat<&i32>) -> AssertThat<&i32>; 3] = [positive, positive, positive];
    let a = assert_that(vec![1, -1, 2]).into_iter_contains_exactly_in_any_order_satisfying(&assertions);
    let text = a.panic_message().unwrap();
    assert!(text.contains("did not exactly satisfy the assertions in any order."));
    assert!(text.contains("Elements satisfying no assertion: [\n    -1,\n]"));
}

#[test]
fn into_iterator_succeeds_when_empty() {
    assert!(assert_that(Vec::<i32>::new()).into_iter_is_empty().passed());
}

#[test]
fn into_iterator_panics_when_not_empty() {
    let a = assert_that(vec![1]).with_expression("vec![1]").into_iter_is_empty();
    assert_eq!(
        a.panic_message().unwrap(),
        "-------- assertr --------\nExpression: `vec![1]`\n\nActual: [\n    1,\n]\n\nis not empty.\n\nDetails:\n  - Consumed 1 element(s).\n-------- assertr --------\n"
    );
    let failures = assert_that(vec![1, 2, 3]).with_capture().into_iter_is_empty().into_failures();
    assert_eq!(failures[0].actual.as_deref(), Some("[\n    1,\n]"));
}

#[test]
fn into_iterator_succeeds_when_not_empty() {
    assert!(assert_that(vec![1]).into_iter_is_not_empty().passed());
}

#[test]
fn succeeds_when_length_matches() {
    assert!(assert_that(vec![1, 2]).into_iter_has_length(2).passed());
}

#[test]
fn into_iterator_panics_when_length_differs() {
    let failures = assert_that(vec![1, 2, 3]).with_capture().into_iter_has_length(2).into_failures();
    assert_eq!(failures[0].relation.as_deref(), Some("does not have the correct length"));
    assert_eq!(failures[0].expected.as_deref(), Some("2"));
    assert_eq!(failures[0].facts[0].text, "3");
}

#[test]
fn deprecated_name_remains_available() {
    assert!(assert_that(Vec::<i32>::new()).into_iter_iterator_is_empty().passed());
}

#[test]
fn assertions_chain_on_the_original_subject() {
    assert!(assert_that(vec![1, 2])
        .into_iter_contains(1)
        .into_iter_does_not_contain(3)
        .into_iter_has_length(2)
        .into_iter_is_not_empty()
        .passed());
}

#[test]
fn into_iterator_panics_when_expected_is_contained() {
    let a = assert_that(vec![1, 2, 3]).with_expression("vec![1, 2, 3]").into_iter_does_not_contain(2);
    assert_eq!(
        a.panic_message().unwrap(),
        "-------- assertr --------\nExpression: `vec![1, 2, 3]`\n\nActual: [\n    1,\n    2,\n]\n\ncontains unexpected: 2\n\nDetails:\n  - Consumed 2 element(s).\n-------- assertr --------\n"
    );
}

#[test]
fn into_iterator_panics_when_an_element_matches() {
    let a = assert_that(vec![1, 2, 3])
        .with_expression("vec![1, 2, 3]")
        .into_iter_does_not_contain_matching(|it: &i32| *it % 2 == 0);
    assert_eq!(
        a.panic_message().unwrap(),
        "-------- assertr --------\nExpression: `vec![1, 2, 3]`\n\nActual: [\n    1,\n    2,\n]\n\nunexpectedly contains an element matching the predicate.\n\nDetails:\n  - Consumed 2 element(s).\n-------- assertr --------\n"
    );
}

#[test]
fn into_iterator_panics_when_no_element_matches() {
    let a = assert_that(vec![1, 2, 3])
        .with_expression("vec![1, 2, 3]")
        .into_iter_contains_matching(|it: &i32| *it > 7);
    assert_eq!(
        a.panic_message().unwrap(),
        "-------- assertr --------\nExpression: `vec![1, 2, 3]`\n\nActual: [\n    1,\n    2,\n    3,\n]\n\ndoes not contain an element matching the predicate.\n\nDetails:\n  - Consumed 3 element(s).\n-------- assertr --------\n"
    );
}

#[test]
fn into_iterator_panics_when_an_element_satisfies() {
    let a = assert_that(vec![1, 2, 3])
        .with_expression("vec![1, 2, 3]")
        .into_iter_does_not_contain_satisfying(is_two);
    assert_eq!(
        a.panic_message().unwrap(),
        "-------- assertr --------\nExpression: `vec![1, 2, 3]`\n\nActual: [\n    1,\n    2,\n]\n\nunexpectedly contains an element satisfying the assertions.\n\nDetails:\n  - Consumed 2 element(s).\n-------- assertr --------\n"
    );
}

#[test]
fn panics_when_any_expected_value_is_absent() {
    let a = assert_that(vec![1, 2, 3]).with_expression("vec![1, 2, 3]").into_iter_contains_all(&[2, 4]);
    assert_eq!(
        a.panic_message().unwrap(),
        "-------- assertr --------\nExpression: `vec![1, 2, 3]`\n\nActual: [\n    1,\n    2,\n    3,\n]\n\ndoes not contain all expected elements\n\nExpected: [\n    2,\n    4,\n]\n\nElements not found: [\n    4,\n]\n\nDetails:\n  - Consumed 3 element(s).\n-------- assertr --------\n"
    );
}

#[test]
fn creates_one_iterator_and_stops_as_soon_as_all_elements_are_found() {
    struct Counted {
        values: Vec<i32>,
        calls: core::cell::Cell<usize>,
    }
    impl<'a> assertr::assertions::collection::Collection for &'a Counted {
        type Item = i32;
        fn element_slice(&self) -> &[i32] {
            self.calls.set(self.calls.get() + 1);
            self.values.as_slice()
        }
    }
    let values = Counted { values: vec![1, 2, 3, 4], calls: core::cell::Cell::new(0) };
    assert!(assert_that(&values).into_iter_contains_all(&[1, 3]).passed());
    assert_eq!(values.calls.get(), 1);
}

#[test]
fn into_iterator_panics_when_an_element_differs() {
    let failures = assert_that(vec![1, 2, 3]).with_capture().into_iter_contains_exactly_in_any_order(&[1, 2, 9]).into_failures();
    assert_eq!(failures.len(), 1);
    assert_eq!(failures[0].actual.as_deref(), Some("[\n    1,\n    2,\n    3,\n]"));
    assert_eq!(failures[0].expected.as_deref(), Some("[\n    1,\n    2,\n    9,\n]"));
    let text = failures[0].to_human_readable_text();
    assert!(text.contains("Elements not found: [\n    9,\n]"));
    assert!(text.contains("Elements not expected: [\n    3,\n]"));
}

#[test]
fn into_iterator_panics_when_a_predicate_stays_unmatched() {
    let predicates: [fn(&i32) -> bool; 3] = [|v| *v == 1, |v| *v == 2, |v| *v == 9];
    let failures = assert_that(vec![1, 2, 3])
        .with_capture()
        .into_iter_contains_exactly_in_any_order_matching(&predicates)
        .into_failures();
    assert_eq!(failures.len(), 1);
    assert_eq!(failures[0].actual.as_deref(), Some("[\n    1,\n    2,\n    3,\n]"));
    assert_eq!(failures[0].relation.as_deref(), Some("did not exactly match predicates in any order."));
}

#[test]
fn into_iterator_panics_when_empty() {
    let a = assert_that(Vec::<i32>::new()).with_expression("Vec::<i32>::new()").into_iter_is_not_empty();
    assert_eq!(
        a.panic_message().unwrap(),
        "-------- assertr --------\nExpression: `Vec::<i32>::new()`\n\nActual: []\n\nis empty.\n-------- assertr --------\n"
    );
}

#[test]
fn panics_when_length_differs() {
    let failures = assert_that(vec![1, 2, 3]).with_capture().into_iter_has_length(2).into_failures();
    assert_eq!(failures.len(), 1);
    assert_eq!(failures[0].relation.as_deref(), Some("does not have the correct length"));
    assert_eq!(failures[0].expected.as_deref(), Some("2"));
    assert_eq!(failures[0].facts[0].label.as_deref(), Some("Observed"));
    assert_eq!(failures[0].facts[0].text, "3");
}
