use assertr::assert_that::{assert_that, AssertThat, Expectation, Must};
use assertr::assertions::partial_eq::{EqualTo, NotEqualTo, PartialEqAssertions};
use assertr::assertions::pattern::Pattern;
use assertr::render::Render;

#[derive(Debug, PartialEq)]
struct Point {
    x: i32,
    y: i32,
}

impl Render for Point {
    fn render(&self) -> String {
        format!("{:?}", self)
    }
}

fn point() -> Point {
    Point { x: 1, y: 2 }
}

#[derive(Debug, PartialEq)]
struct Element(i32);

impl Render for Element {
    fn render(&self) -> String {
        format!("{:?}", self)
    }
}

fn uses_partial_eq<A: PartialEqAssertions<i32>>(a: A) -> A {
    a.is_equal_to(1)
}

#[test]
fn partial_eq_trait_is_implemented_without_renderer_support() {
    let a: AssertThat<i32> = uses_partial_eq(assert_that(1));
    assert!(a.passed());
}

#[test]
fn borrowed_operands_render_the_target_with_the_active_renderer() {
    #[derive(Debug)]
    struct Actual(i32);
    struct Expected(Actual);
    impl PartialEq<Expected> for Actual {
        fn eq(&self, other: &Expected) -> bool {
            self.0 == other.0 .0
        }
    }
    impl Render for Actual {
        fn render(&self) -> String {
            format!("<{}>", self.0)
        }
    }
    impl Render for Expected {
        fn render(&self) -> String {
            self.0.render()
        }
    }
    let failures = assert_that(Actual(1)).with_capture().is_equal_to(Expected(Actual(2))).into_failures();
    let text = failures[0].to_human_readable_text();
    assert!(text.contains("<1>"));
    assert!(text.contains("<2>"));
}

#[test]
fn partial_eq_fluent_alias_is_as_expected() {
    assert!("foo".must().be_equal_to("foo").passed());
    assert!("foo".must().not_be_equal_to("bar").passed());
}

#[test]
fn partial_eq_succeeds_when_equal() {
    assert!(assert_that("foo").is_equal_to("foo").passed());
    assert!(assert_that("foo".to_string()).is_equal_to("foo".to_string()).passed());
    assert!(assert_that("foo".to_string()).is_equal_to("foo").passed());
}

#[test]
fn partial_eq_panics_when_not_equal() {
    let a = assert_that("foo").with_expression("\"foo\"").is_equal_to("bar");
    assert_eq!(
        a.panic_message().unwrap(),
        "-------- assertr --------\nExpression: `\"foo\"`\n\nExpected: \"bar\"\n\n  Actual: \"foo\"\n-------- assertr --------\n"
    );
}

#[test]
fn byte_slices_compare_with_byte_string_literals() {
    let actual: &[u8] = b"hello";
    assert!(assert_that(actual).is_equal_to(b"hello").passed());
}

#[test]
fn string_vectors_compare_with_string_literal_arrays() {
    assert!(assert_that(vec![String::from("hello")]).is_equal_to(["hello"]).passed());
}

#[test]
fn partial_eq_custom_heterogeneous_comparisons_use_predicates() {
    #[derive(Debug)]
    struct Foo {}
    #[derive(Debug)]
    struct Bar {}
    impl PartialEq<Bar> for Foo {
        fn eq(&self, _other: &Bar) -> bool {
            true
        }
    }
    assert!(assert_that(Foo {})
        .matches(Pattern::new("equals Bar", |actual: &Foo| actual.eq(&Bar {})))
        .passed());
}

#[test]
fn succeeds_when_not_equal() {
    assert!(assert_that("foo").is_not_equal_to("bar").passed());
}

#[test]
fn partial_eq_panics_when_equal() {
    let a = assert_that("foo").with_expression("\"foo\"").is_not_equal_to("foo");
    assert_eq!(
        a.panic_message().unwrap(),
        "-------- assertr --------\nExpression: `\"foo\"`\n\nActual: \"foo\"\n\nis equal to\n\nUnexpected: \"foo\"\n-------- assertr --------\n"
    );
}

#[test]
fn accepts_all_value_reference_forms_and_reusable_matchers() {
    let actual = point();
    let expected = point();
    assert!(assert_that(point()).is_equal_to(point()).passed());
    assert!(assert_that(&actual).is_equal_to(&expected).passed());
    assert!(assert_that(&actual).is_equal_to(&point()).passed());
    let matcher = EqualTo::new(&expected);
    assert!(assert_that(&actual).matches(&matcher).matches(&matcher).passed());
    let owned = EqualTo::new(point());
    assert!(assert_that(point()).matches(&owned).passed());
    assert!(assert_that(expected).is_equal_to(point()).passed());
}

#[test]
fn inequality_negates_eq_even_when_ne_is_overridden() {
    #[derive(Debug)]
    struct Unusual;
    #[allow(clippy::partialeq_ne_impl)]
    impl PartialEq for Unusual {
        fn eq(&self, _: &Self) -> bool {
            false
        }
        fn ne(&self, _: &Self) -> bool {
            false
        }
    }
    impl Render for Unusual {
        fn render(&self) -> String {
            String::from("Unusual")
        }
    }
    assert!(assert_that(&Unusual).is_not_equal_to(&Unusual).matches(NotEqualTo::new(&Unusual)).passed());
}

#[test]
fn vectors_accept_owned_and_borrowed_arrays_without_cloning_elements() {
    let actual = vec![Element(1), Element(2)];
    let expected = [Element(1), Element(2)];
    let chain = assert_that(actual)
        .is_equal_to([Element(1), Element(2)])
        .is_equal_to(&expected)
        .is_not_equal_to([Element(1)])
        .is_not_equal_to([Element(1), Element(3)]);
    assert!(chain.passed());
    let matcher = EqualTo::new(expected);
    assert!(assert_that(vec![Element(1), Element(2)]).matches(&matcher).matches(&matcher).passed());
}

#[test]
fn slice_subjects_accept_owned_and_borrowed_vectors_without_cloning_elements() {
    let actual = [Element(1), Element(2)];
    let expected = vec![Element(1), Element(2)];
    let slice = actual.as_slice();
    assert!(assert_that(slice)
        .is_equal_to(vec![Element(1), Element(2)])
        .is_equal_to(&expected)
        .is_not_equal_to(vec![Element(1)])
        .is_not_equal_to(vec![Element(1), Element(3)])
        .passed());
    let matcher = EqualTo::new(&expected);
    assert!(assert_that(slice).matches(&matcher).matches(&matcher).passed());
}

#[test]
fn string_value_reference_matrix_and_reusable_matchers() {
    let actual = String::from("hello");
    let expected = String::from("hello");
    assert!(assert_that(actual.clone()).is_equal_to(String::from("hello")).passed());
    assert!(assert_that(&actual).is_equal_to(&expected).passed());
    assert!(assert_that(actual.clone()).is_equal_to("hello").passed());
    assert!(assert_that("hello").is_equal_to(String::from("hello")).passed());
    let literal = EqualTo::new("hello");
    assert!(assert_that(actual.clone()).matches(&literal).passed());
    assert!(assert_that("hello").matches(&literal).passed());
}

#[test]
fn equality_matchers_compose_with_chains() {
    assert!(assert_that(3).matches(EqualTo::new(3)).matches(NotEqualTo::new(4)).passed());
    let failures = assert_that(3).with_capture().matches(NotEqualTo::new(3)).into_failures();
    assert_eq!(failures[0].relation.as_deref(), Some("is equal to"));
    assert_eq!(failures[0].unexpected.as_deref(), Some("3"));
}

#[test]
fn shared_operands_render_once_and_follow_the_actual_value() {
    let failures = assert_that(1).with_capture().matches(EqualTo::new(2)).into_failures();
    assert_eq!(failures.len(), 1);
    assert_eq!(failures[0].actual.as_deref(), Some("1"));
    assert_eq!(failures[0].expected.as_deref(), Some("2"));
    let description = NotEqualTo::new(2).explain(&2);
    assert!(description.expected.is_none());
    assert_eq!(description.unexpected.as_deref(), Some("2"));
}

#[test]
fn missing_elements_keep_the_negative_operand_role() {
    let failures = assert_that(3).with_capture().matches(NotEqualTo::new(3)).into_failures();
    assert!(failures[0].expected.is_none());
    assert_eq!(failures[0].unexpected.as_deref(), Some("3"));
    assert!(failures[0].to_human_readable_text().contains("Unexpected: 3"));
}

#[test]
fn panics_when_equal() {
    let a = assert_that("foo").with_expression("\"foo\"").is_not_equal_to("foo");
    assert_eq!(
        a.panic_message().unwrap(),
        "-------- assertr --------\nExpression: `\"foo\"`\n\nActual: \"foo\"\n\nis equal to\n\nUnexpected: \"foo\"\n-------- assertr --------\n"
    );
}

#[test]
fn direct_unsized_targets_and_declared_references() {
    assert!(EqualTo::new("hello").evaluate(&"hello"));
    assert!(NotEqualTo::new("world").evaluate(&"hello"));
    assert!(EqualTo::new(vec![1, 2]).evaluate(&[1, 2].as_slice()));
    let value = Point { x: 1, y: 2 };
    assert!(assert_that(&value).matches(EqualTo::new(&value)).passed());
}

#[test]
fn sequence_views_preserve_equality_diagnostics() {
    let report = "-------- assertr --------\nExpression: `sequence`\n\nExpected: [\n    1,\n    3,\n]\n\n  Actual: [\n    1,\n    2,\n]\n-------- assertr --------\n";
    let from_array = assert_that(vec![1, 2]).with_expression("sequence").with_capture().is_equal_to([1, 3]).into_failures();
    let expected = vec![1, 3];
    let from_vector = assert_that([1, 2].as_slice()).with_expression("sequence").with_capture().is_equal_to(&expected).into_failures();
    for failures in [from_array, from_vector] {
        assert_eq!(failures.len(), 1);
        assert_eq!(failures[0].to_human_readable_text(), report);
    }
}

#[test]
fn unsized_view_is_borrowed_once_after_tracking_and_rendered_on_both_rejections() {
    for negative in [false, true] {
        let a = assert_that(String::from("hello")).with_capture();
        let a = if negative { a.is_not_equal_to("hello") } else { a.is_equal_to("world") };
        assert_eq!(a.assertion_count_of(), 1);
        assert_eq!(a.into_failures().len(), 1);
    }
    assert!(assert_that(String::from("hello")).matches(NotEqualTo::new("world")).passed());
}

#[test]
fn partial_eq_caller_location_is_as_expected() {
    let here = "tests/partial_eq.rs:1:1";
    let failures = assert_that(1).with_location(here).with_capture().is_equal_to(2).is_not_equal_to(1).into_failures();
    assert_eq!(failures.len(), 2);
    assert!(failures.iter().all(|f| f.location.as_deref() == Some(here)));
}
