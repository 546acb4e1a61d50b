use assertr::assert_that::{assert_that, AssertThat, Must};
use assertr::assertions::option::{OptionAssertions, OptionExtractAssertions};
use assertr::assertions::partial_eq::PartialEqAssertions;
use assertr::assertions::partial_ord::PartialOrdAssertions;
use assertr::assertions::string::StrAssertions;
use assertr::render::Render;

struct Secret;

impl Render for Secret {
    fn render(&self) -> String {
        String::from("<secret>")
    }
}

fn uses_option_assertions<A: OptionAssertions<i32>>(a: A) -> A {
    a.is_some()
}

fn uses_extraction<A: OptionExtractAssertions<i32>>(a: A) -> AssertThat<i32> {
    a.get_some()
}

#[test]
fn option_traits_are_implemented_without_renderer_support() {
    let a: AssertThat<Option<i32>> = uses_option_assertions(assert_that(Some(1)));
    assert!(a.passed());
    assert!(uses_extraction(assert_that(Some(1))).passed());
}

#[test]
fn some_variant_is_rendered_from_its_leaf_value() {
    let failures = assert_that(Some(Secret)).with_capture().is_none().into_failures();
    let text = failures[0].to_human_readable_text();
    assert!(text.contains("Some("));
    assert!(text.contains("<secret>"));
}

#[test]
fn valueless_variant_needs_no_renderer_capability() {
    let failures = assert_that(Option::<Secret>::None).with_capture().is_some().into_failures();
    assert!(failures[0].to_human_readable_text().contains("Actual: None"));
}

#[test]
fn option_fluent_alias_is_as_expected() {
    assert!(Option::<i32>::Some(42).must().be_some().passed());
    assert!(Option::<i32>::None.must().be_none().passed());
    assert!(Some(42).must().get_some().is_equal_to(42).passed());
    assert!(Option::<i32>::Some(42).must().be_some_satisfying(|some| some.is_equal_to(&42)).passed());
}

#[test]
fn succeeds_when_some_and_retains_the_subject() {
    assert!(assert_that(Option::<i32>::Some(42)).is_some().is_equal_to(Some(42)).passed());
}

#[test]
fn option_panics_when_none() {
    let a = assert_that(Option::<i32>::None).with_expression("Option::<i32>::None").is_some();
    assert_eq!(
        a.panic_message().unwrap(),
        "-------- assertr --------\nExpression: `Option::<i32>::None`\n\nActual: None\n\nis not the expected variant\n\nExpected: Option::Some\n-------- assertr --------\n"
    );
}

#[test]
fn option_works_in_capture_mode_and_allows_further_chaining() {
    let failures = assert_that(Option::<i32>::None).with_capture().is_some().is_none().into_failures();
    assert_eq!(failures.len(), 1);
}

#[test]
fn option_extracts_the_borrowed_inner_value() {
    let option = Some(String::from("value"));
    assert!(assert_that(&option).get_some().is_equal_to(&String::from("value")).passed());
    assert!(assert_that(&option).is_some().passed());
}

#[test]
fn option_extracts_the_owned_inner_value() {
    assert!(assert_that(Some(String::from("value"))).get_some().is_equal_to("value").passed());
}

#[test]
fn succeeds_when_some_and_assertions_pass() {
    assert!(assert_that(Option::<i32>::Some(42)).is_some_satisfying(|some| some.is_equal_to(&42)).passed());
}

#[test]
fn option_hands_out_a_value_typed_assertion_supporting_type_specific_assertions() {
    assert!(assert_that(Some(String::from("value")))
        .is_some_satisfying(|some| some.contains("alu").starts_with("v"))
        .passed());
}

#[test]
fn option_captures_inner_failure_when_some_and_assertion_fails() {
    let failures = assert_that(Some(41)).with_capture().is_some_satisfying(|some| some.is_equal_to(&42)).into_failures();
    assert_eq!(failures.len(), 1);
    assert_eq!(failures[0].actual.as_deref(), Some("41"));
    assert_eq!(failures[0].expected.as_deref(), Some("42"));
}

#[test]
fn succeeds_when_none_and_retains_the_subject() {
    assert!(assert_that(Option::<i32>::None).is_none().is_equal_to(None::<i32>).passed());
}

#[test]
fn hands_out_a_value_typed_assertion_in_capture_mode() {
    let failures = assert_that(Some(String::from("value")))
        .with_capture()
        .is_some_satisfying(|some| some.contains("xyz"))
        .into_failures();
    assert_eq!(failures.len(), 1);
    assert_eq!(
        failures[0].to_human_readable_text(),
        "-------- assertr --------\nActual: \"value\"\n\ndoes not contain\n\nExpected: \"xyz\"\n-------- assertr --------\n"
    );
}

#[test]
fn captures_inner_failure_when_some_and_assertion_fails() {
    let failures = assert_that(Option::<i32>::Some(42))
        .with_capture()
        .is_some_satisfying(|some| some.is_greater_than(&9000))
        .into_failures();
    assert_eq!(failures.len(), 1);
    assert_eq!(
        failures[0].to_human_readable_text(),
        "-------- assertr --------\nActual: 42\n\nis not greater than\n\nExpected: 9000\n-------- assertr --------\n"
    );
}

#[test]
fn captures_variant_failure_when_none() {
    let a = assert_that(Option::<i32>::None)
        .with_expression("Option::<i32>::None")
        .with_capture()
        .is_some_satisfying(|_| panic!("assertions should not run"));
    assert_eq!(a.assertion_count_of(), 1);
    let failures = a.into_failures();
    assert_eq!(failures.len(), 1);
    assert_eq!(
        failures[0].to_human_readable_text(),
        "-------- assertr --------\nExpression: `Option::<i32>::None`\n\nActual: None\n\nis not the expected variant\n\nExpected: Option::Some\n-------- assertr --------\n"
    );
}

#[test]
fn panics_when_some() {
    let a = assert_that(Option::<i32>::Some(42)).with_expression("Option::<i32>::Some(42)").is_none();
    assert_eq!(
        a.panic_message().unwrap(),
        "-------- assertr --------\nExpression: `Option::<i32>::Some(42)`\n\nActual: Some(\n    42,\n)\n\nis not the expected variant\n\nExpected: Option::None\n-------- assertr --------\n"
    );
}
