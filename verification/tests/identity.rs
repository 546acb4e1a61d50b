use assertr::assert_that::{assert_that, AssertThat, Must};
use assertr::assertions::identity::IdentityAssertions;
use assertr::failure::FailureKind;

struct Opaque {
    _byte: u8,
}

fn uses_identity_assertions<'a, A: IdentityAssertions<Opaque>>(a: A, other: &'a Opaque) -> A {
    a.is_same_instance_as(other)
}

#[test]
fn identity_trait_is_implemented_without_renderer_support() {
    let value = Opaque { _byte: 1 };
    let a: AssertThat<&Opaque> = uses_identity_assertions(assert_that(&value), &value);
    assert!(a.passed());
}

#[test]
fn identity_fluent_alias_is_as_expected() {
    let value = Opaque { _byte: 1 };
    assert!((&value).must().be_same_instance_as(&value).passed());
    let other = Opaque { _byte: 1 };
    assert!((&value).must().not_be_same_instance_as(&other).passed());
}

#[test]
fn accepts_opaque_values_and_normalizes_borrowed_references() {
    let mut value = Opaque { _byte: 1 };
    assert!(assert_that(&value).is_same_instance_as(&value).passed());
    let reference = &mut value;
    let shared: &Opaque = reference;
    assert!(assert_that(shared).is_same_instance_as(shared).passed());
    let candidates = [&value];
    let assertion = assert_that(candidates[0]).is_same_instance_as(&value).is_same_instance_as(&value);
    assert!(assertion.passed());
}

#[test]
fn does_not_unwrap_reference_valued_subjects() {
    let values = [1, 1];
    let references = [&values[0], &values[0]];
    assert!(assert_that(&references[0])
        .is_same_instance_as(&references[0])
        .is_not_same_instance_as(&references[1])
        .passed());
    let text = "text";
    assert!(assert_that(&text).is_same_instance_as(&text).passed());
}

#[test]
fn captures_distinct_equal_values_and_preserves_context() {
    let values = [42, 42];
    let failures = assert_that(&values[0])
        .with_expression("values[0]")
        .with_detail_message("identity matters")
        .with_capture()
        .is_same_instance_as(&values[1])
        .is_same_instance_as(&values[0])
        .into_failures();
    assert_eq!(failures.len(), 1);
    assert_eq!(failures[0].kind, FailureKind::Identity);
    assert_eq!(failures[0].expression.as_deref(), Some("values[0]"));
    assert_eq!(failures[0].details, vec![String::from("identity matters")]);
    assert!(failures[0].unexpected.is_none());
    assert_eq!(failures[0].relation.as_deref(), Some("is not the same instance as"));
}

#[test]
fn accepts_a_zero_sized_value_at_the_same_address() {
    let value = ();
    assert!(assert_that(&value).is_same_instance_as(&value).passed());
}

#[test]
fn accepts_distinct_opaque_instances_and_preserves_the_renderer() {
    let values = [Opaque { _byte: 1 }, Opaque { _byte: 1 }];
    let assertion = assert_that(&values[0]).is_not_same_instance_as(&values[1]);
    assert!(assertion.passed());
}

#[test]
fn panics_when_the_instances_are_the_same() {
    let value = Opaque { _byte: 1 };
    let a = assert_that(&value).is_not_same_instance_as(&value);
    assert!(a.panic_message().unwrap().contains("is the same instance as"));
}

#[test]
fn captures_distinct_equal_values_with_their_addresses() {
    let values = [42, 42];
    let failures = assert_that(&values[0]).with_capture().is_same_instance_as(&values[1]).into_failures();
    assert_eq!(failures.len(), 1);
    assert_eq!(failures[0].relation.as_deref(), Some("is not the same instance as"));
    assert_eq!(failures[0].actual.as_deref(), Some(format!("{:p}", &values[0]).as_str()));
    assert_eq!(failures[0].expected.as_deref(), Some(format!("{:p}", &values[1]).as_str()));
    let failures = assert_that(&values[0]).with_capture().is_not_same_instance_as(&values[0]).into_failures();
    assert_eq!(failures[0].unexpected.as_deref(), Some(format!("{:p}", &values[0]).as_str()));
}

#[test]
fn panics_with_pointer_evidence_without_rendering_the_values() {
    let values = [Opaque { _byte: 1 }, Opaque { _byte: 1 }];
    let actual = &values[0];
    let expected = &values[1];
    let a = assert_that(actual).with_expression("actual").is_same_instance_as(expected);
    assert_eq!(
        a.panic_message().unwrap(),
        format!(
            "-------- assertr --------\nExpression: `actual`\n\nActual: {:p}\n\nis not the same instance as\n\nExpected: {:p}\n-------- assertr --------\n",
            actual, expected
        )
    );
}

#[test]
fn captures_identity_with_unexpected_evidence() {
    let value = Opaque { _byte: 1 };
    let failures = assert_that(&value).with_expression("value").with_capture().is_not_same_instance_as(&value).into_failures();
    assert_eq!(failures.len(), 1);
    assert!(failures[0].expected.is_none());
    assert_eq!(
        failures[0].to_human_readable_text(),
        format!(
            "-------- assertr --------\nExpression: `value`\n\nActual: {:p}\n\nis the same instance as\n\nUnexpected: {:p}\n-------- assertr --------\n",
            &value, &value
        )
    );
}

#[test]
fn identity_caller_location_is_as_expected() {
    let values = [Opaque { _byte: 1 }, Opaque { _byte: 1 }];
    let here = "tests/identity.rs:1:1";
    let failures = assert_that(&values[0]).with_location(here).with_capture().is_same_instance_as(&values[1]).into_failures();
    assert_eq!(failures[0].location.as_deref(), Some(here));
}
