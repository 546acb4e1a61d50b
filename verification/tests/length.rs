use assertr::assert_that::{assert_that, AssertThat, Must};
use assertr::assertions::length::{HasLength, LengthAssertions, TypeLabel};
use assertr::render::Render;
use std::collections::VecDeque;

fn uses_length_assertions<A: LengthAssertions>(a: A) -> A {
    a.is_not_empty()
}

#[test]
fn length_trait_is_implemented_without_renderer_support() {
    let a: AssertThat<Vec<u8>> = uses_length_assertions(assert_that(vec![1u8]));
    assert!(a.passed());
}

#[test]
fn length_fluent_alias_is_as_expected() {
    let arr: [i32; 0] = [];
    assert!(arr.must().be_empty().passed());
    let slice: &[i32] = [].as_slice();
    assert!(slice.must().be_empty().passed());
    assert!("".must().be_empty().passed());
    assert!(String::new().must().be_empty().passed());
    assert!(Vec::<i32>::new().must().be_empty().passed());
    assert!(VecDeque::from([42]).must().not_be_empty().passed());
    assert!("foo bar".must().have_length(7).passed());
    assert!(vec![1, 2, 3].must().have_length(3).passed());
}

#[test]
fn length_succeeds_when_empty() {
    let arr: [i32; 0] = [];
    assert!(assert_that(arr).is_empty().passed());
    assert!(assert_that("").is_empty().passed());
    assert!(assert_that(String::new()).is_empty().passed());
}

#[test]
fn length_panics_when_not_empty() {
    let a = assert_that([1, 2, 3]).with_expression("[1, 2, 3]").is_empty();
    assert_eq!(
        a.panic_message().unwrap(),
        "-------- assertr --------\nExpression: `[1, 2, 3]`\n\nActual: [i32; 3] [\n    1,\n    2,\n    3,\n]\n\nis not empty\n-------- assertr --------\n"
    );
    let failures = assert_that("foo").with_capture().is_empty().into_failures();
    assert_eq!(failures[0].actual.as_deref(), Some("str \"foo\""));
}

#[test]
fn requires_no_numeric_renderer() {
    let empty: [i32; 0] = [];
    assert!(assert_that(empty).is_empty().passed());
}

#[test]
fn length_with_slice_succeeds_when_empty() {
    let slice: &[i32] = [].as_slice();
    assert!(assert_that(slice).is_empty().passed());
    let vec = Vec::<i32>::new();
    assert!(assert_that(vec).is_empty().passed());
}

#[test]
fn length_with_slice_panics_when_not_empty() {
    let failures = assert_that([42].as_slice()).with_capture().is_empty().into_failures();
    assert_eq!(failures[0].actual.as_deref(), Some("[i32] [\n    42,\n]"));
    assert_eq!(failures[0].relation.as_deref(), Some("is not empty"));
}

#[test]
fn length_succeeds_when_not_empty() {
    assert!(assert_that(VecDeque::from([42])).is_not_empty().passed());
}

#[test]
fn length_panics_when_empty() {
    let failures = assert_that(Vec::<i32>::new()).with_capture().is_not_empty().into_failures();
    assert_eq!(failures[0].relation.as_deref(), Some("is unexpectedly empty"));
}

#[test]
fn succeeds_for_borrowed_vec_deque() {
    let deque = VecDeque::from([42]);
    assert!(assert_that(&deque).is_not_empty().passed());
}

#[test]
fn length_succeeds_when_expected_length_matches() {
    assert!(assert_that("foo bar").has_length(7).passed());
    assert!(assert_that(String::from("foo bar")).has_length(7).passed());
}

#[test]
fn string_length_counts_bytes() {
    assert!(assert_that("é🦀").has_length(6).passed());
    let failures = assert_that("é").with_capture().has_length(1).into_failures();
    assert_eq!(failures[0].relation.as_deref(), Some("does not have the expected length"));
    assert_eq!(failures[0].expected.as_deref(), Some("1"));
    assert_eq!(failures[0].facts[0].label.as_deref(), Some("Actual length"));
    assert_eq!(failures[0].facts[0].text, "2");
}

#[test]
fn boxed_str_supports_length_assertions() {
    assert!(assert_that(Box::<str>::from("foo")).is_not_empty().has_length(3).passed());
    assert!(assert_that(Box::<str>::default()).is_empty().has_length(0).passed());
}

#[test]
fn length_succeeds_when_length_matches_and_empty() {
    let slice: &[i32] = [].as_slice();
    assert!(assert_that(slice).has_length(0).passed());
    assert!(assert_that(Vec::<i32>::new()).has_length(0).passed());
    assert!(assert_that("").has_length(0).passed());
}

#[test]
fn length_succeeds_when_length_matches_and_non_empty() {
    let slice: &[i32] = [1, 2, 3].as_slice();
    assert!(assert_that(slice).has_length(3).passed());
    assert!(assert_that(vec![1, 2, 3]).has_length(3).passed());
    assert!(assert_that([1, 2, 3]).has_length(3).passed());
}

#[test]
fn a_matching_length_does_not_render() {
    struct NeverRender(Vec<i32>);
    impl Render for NeverRender {
        fn render(&self) -> String {
            panic!("success rendered")
        }
    }
    impl TypeLabel for NeverRender {
        fn label() -> String {
            panic!("success labelled")
        }
    }
    impl HasLength for NeverRender {
        fn length(&self) -> usize {
            self.0.len()
        }
        fn is_empty(&self) -> bool {
            self.0.is_empty()
        }
        fn is_not_empty(&self) -> bool {
            !self.0.is_empty()
        }
    }
    assert!(assert_that(NeverRender(vec![1, 2])).has_length(2).passed());
}

#[test]
fn ranges_report_their_mathematical_length() {
    assert_eq!((3u8..7).length(), 4);
    assert_eq!((7i32..3).length(), 0);
    assert_eq!((-2i64..=2).length(), 5);
    assert_eq!((i8::MIN..i8::MAX).length(), 255);
    assert!(HasLength::is_empty(&(5u32..5)));
    assert!(HasLength::is_not_empty(&(5u32..=5)));
}

#[test]
fn supports_length_assertions() {
    let empty: [i32; 0] = [];
    assert!(assert_that(&empty).is_empty().has_length(0).passed());
    let values = [1, 2, 3];
    assert!(assert_that(&values).is_not_empty().has_length(3).passed());
}

#[test]
fn has_length_fluent_alias_is_as_expected() {
    assert!((1_usize..9_usize).must().have_length(8).passed());
}

#[test]
fn has_length_works_on_range_and_inclusive_range() {
    assert!(assert_that(1_usize..9_usize).has_length(8).passed());
    assert!(assert_that(1_usize..=9_usize).has_length(9).passed());
    assert!(assert_that(5_usize..=5_usize).has_length(1).passed());
    assert!(assert_that(9_usize..1_usize).has_length(0).passed());
    assert!(assert_that(9_usize..=1_usize).has_length(0).passed());
    assert!(assert_that(1_u8..9_u8).has_length(8).passed());
    assert!(assert_that(1_u8..=9_u8).has_length(9).passed());
    assert!(assert_that(u8::MIN..=u8::MAX).has_length(256).passed());
    assert!(assert_that(9_u8..1_u8).has_length(0).passed());
    assert!(assert_that(1_u16..=9_u16).has_length(9).passed());
    assert!(assert_that(9_u32..=1_u32).has_length(0).passed());
    assert!(assert_that(1_u64..9_u64).has_length(8).passed());
    assert!(assert_that(-4_i8..4_i8).has_length(8).passed());
    assert!(assert_that(i8::MIN..=i8::MAX).has_length(256).passed());
    assert!(assert_that(-4_i16..=4_i16).has_length(9).passed());
    assert!(assert_that(-4_i32..4_i32).has_length(8).passed());
    assert!(assert_that(4_i64..=-4_i64).has_length(0).passed());
}

#[test]
fn has_length_exhausted_inclusive_range_has_length_zero() {
    let mut range = 5_usize..=5_usize;
    assert_eq!(range.next(), Some(5));
    assert!(range.is_empty());
    assert!(assert_that(range).has_length(0).passed());
}

#[test]
fn length_failure_shows_the_type_label_and_counts_one_assertion() {
    let a = assert_that(vec![42]).with_capture().has_length(2);
    assert_eq!(a.assertion_count_of(), 1);
    let failures = a.into_failures();
    assert_eq!(failures[0].actual.as_deref(), Some("Vec [\n    42,\n]"));
    assert_eq!(
        failures[0].to_human_readable_text(),
        "-------- assertr --------\nActual: Vec [\n    42,\n]\n\ndoes not have the expected length\n\nExpected: 2\n\nDetails:\n  - Actual length: 1\n-------- assertr --------\n"
    );
    let failures = assert_that(String::from("foo bar")).with_capture().has_length(42).into_failures();
    assert_eq!(failures[0].actual.as_deref(), Some("String \"foo bar\""));
    let failures = assert_that(1_u8..3_u8).with_capture().is_empty().into_failures();
    assert_eq!(failures[0].actual.as_deref(), Some("Range 1..3"));
}

#[test]
fn length_panics_when_expected_length_does_not_match() {
    let a = assert_that("foo bar").with_expression("\"foo bar\"").has_length(42);
    assert_eq!(
        a.panic_message().unwrap(),
        "-------- assertr --------\nExpression: `\"foo bar\"`\n\nActual: str \"foo bar\"\n\ndoes not have the expected length\n\nExpected: 42\n\nDetails:\n  - Actual length: 7\n-------- assertr --------\n"
    );
    let a = assert_that(String::from("foo bar")).with_expression("String::from(\"foo bar\")").has_length(42);
    assert_eq!(
        a.panic_message().unwrap(),
        "-------- assertr --------\nExpression: `String::from(\"foo bar\")`\n\nActual: String \"foo bar\"\n\ndoes not have the expected length\n\nExpected: 42\n\nDetails:\n  - Actual length: 7\n-------- assertr --------\n"
    );
}

#[test]
fn length_panics_when_length_does_not_match() {
    let a = assert_that([42].as_slice()).with_expression("[42].as_slice()").has_length(2);
    assert_eq!(
        a.panic_message().unwrap(),
        "-------- assertr --------\nExpression: `[42].as_slice()`\n\nActual: [i32] [\n    42,\n]\n\ndoes not have the expected length\n\nExpected: 2\n\nDetails:\n  - Actual length: 1\n-------- assertr --------\n"
    );
    let a = assert_that(vec![42]).with_expression("vec![42]").has_length(2);
    assert_eq!(
        a.panic_message().unwrap(),
        "-------- assertr --------\nExpression: `vec![42]`\n\nActual: Vec [\n    42,\n]\n\ndoes not have the expected length\n\nExpected: 2\n\nDetails:\n  - Actual length: 1\n-------- assertr --------\n"
    );
    let a = assert_that(VecDeque::from([42])).with_expression("VecDeque::from([42])").has_length(2);
    assert_eq!(
        a.panic_message().unwrap(),
        "-------- assertr --------\nExpression: `VecDeque::from([42])`\n\nActual: VecDeque [\n    42,\n]\n\ndoes not have the expected length\n\nExpected: 2\n\nDetails:\n  - Actual length: 1\n-------- assertr --------\n"
    );
    let a = assert_that(VecDeque::from([42])).with_expression("VecDeque::from([42])").is_empty();
    assert_eq!(
        a.panic_message().unwrap(),
        "-------- assertr --------\nExpression: `VecDeque::from([42])`\n\nActual: VecDeque [\n    42,\n]\n\nis not empty\n-------- assertr --------\n"
    );
}

#[test]
fn renders_original_length_evidence() {
    let failures = assert_that([1, 2]).with_expression("[1, 2]").with_capture().has_length(3).into_failures();
    assert_eq!(failures.len(), 1);
    assert_eq!(
        failures[0].to_human_readable_text(),
        "-------- assertr --------\nExpression: `[1, 2]`\n\nActual: [i32; 2] [\n    1,\n    2,\n]\n\ndoes not have the expected length\n\nExpected: 3\n\nDetails:\n  - Actual length: 2\n-------- assertr --------\n"
    );
}
