use assertr::assert_that::{assert_that, Must};
use assertr::assertions::headers::header_value::{HttpHeaderValueAssertions, HttpHeaderValueExtractAssertions};
use assertr::assertions::partial_eq::PartialEqAssertions;
use assertr::assertions::str_slice::StrSliceAssertions;
use assertr::render::Render;
use http::HeaderValue;

fn report(body: &str) -> String {
    format!("-------- assertr --------\n{body}\n-------- assertr --------\n")
}

fn value(text: &str) -> HeaderValue {
    HeaderValue::from_str(text).expect("valid header value")
}

#[test]
fn header_value_fluent_alias_is_as_expected() {
    assert!(value("").must().be_empty().passed());
    assert!(value("http/1.1").must().not_be_empty().passed());
    let mut secret = value("http/1.1");
    secret.set_sensitive(true);
    assert!(secret.must().be_sensitive().passed());
    assert!(value("http/1.1").must().be_insensitive().passed());
    assert!(value("http/1.1").must().be_ascii().passed());
    assert!(HeaderValue::from_static("http/1.1").must().get_ascii().is_equal_to(String::from("http/1.1")).passed());
    assert!(value("http/1.1").must().be_ascii_satisfying(|s| s.starts_with("http")).passed());
}

#[test]
fn header_value_succeeds_when_empty() {
    assert!(assert_that(value("")).is_empty().passed());
}

#[test]
fn header_value_panics_when_not_empty() {
    let a = assert_that(value("http/1.1")).is_empty();
    assert_eq!(
        a.panic_message().unwrap(),
        report("Expected: 0\n\n  Actual: 8\n\nDetails:\n  - Expected an empty header value.")
    );
}

#[test]
fn header_value_succeeds_when_not_empty() {
    assert!(assert_that(value("http/1.1")).is_not_empty().passed());
}

#[test]
fn header_value_panics_when_empty() {
    let a = assert_that(value("")).is_not_empty();
    assert_eq!(
        a.panic_message().unwrap(),
        report("Actual: 0\n\nis not greater than\n\nExpected: 0\n\nDetails:\n  - Expected a non-empty header value.")
    );
}

#[test]
fn succeeds_when_sensitive() {
    let mut actual = value("http/1.1");
    actual.set_sensitive(true);
    assert!(assert_that(actual).is_sensitive().passed());
}

#[test]
fn panics_when_insensitive() {
    let mut actual = value("http/1.1");
    actual.set_sensitive(false);
    let a = assert_that(actual).is_sensitive();
    assert_eq!(
        a.panic_message().unwrap(),
        report("Expected: true\n\n  Actual: false\n\nDetails:\n  - Expected a sensitive header value. You might have forgotten to call `set_sensitive(true)` on the header value.")
    );
}

#[test]
fn not_sensitive_by_default() {
    assert!(assert_that(value("http/1.1")).is_insensitive().passed());
}

#[test]
fn succeeds_when_insensitive() {
    let mut actual = value("http/1.1");
    actual.set_sensitive(false);
    assert!(assert_that(actual).is_insensitive().passed());
}

#[test]
fn panics_when_sensitive() {
    let mut actual = value("http/1.1");
    actual.set_sensitive(true);
    let a = assert_that(actual).is_insensitive();
    assert_eq!(
        a.panic_message().unwrap(),
        report("Expected: false\n\n  Actual: true\n\nDetails:\n  - Expected an insensitive header value. You might have forgotten to call `set_sensitive(false)` on the header value.")
    );
}

#[test]
fn succeeds_when_ascii_and_retains_the_subject() {
    assert!(assert_that(value("http/1.1")).is_ascii().is_not_empty().passed());
}

#[test]
fn panics_when_not_ascii() {
    let actual = HeaderValue::from_bytes(&[32, 33, 255]).expect("valid header value");
    let a = assert_that(actual).is_ascii();
    assert_eq!(a.panic_message().unwrap(), report("Actual: \" !\\xff\"\n\nis not valid ASCII"));
}

#[test]
fn header_value_works_in_capture_mode() {
    let actual = HeaderValue::from_bytes(&[32, 33, 255]).expect("valid header value");
    let failures = assert_that(actual).with_capture().is_ascii().is_not_empty().into_failures();
    assert_eq!(failures.len(), 1);
    assert!(failures[0].to_human_readable_text().contains("is not valid ASCII"));
}

#[test]
fn extracts_the_value_when_constructed_from_visible_ascii_characters_through_str() {
    assert!(assert_that(value("http/1.1")).get_ascii().is_equal_to(String::from("http/1.1")).passed());
}

#[test]
fn extracts_the_value_when_constructed_from_visible_ascii_characters_through_bytes() {
    let actual = HeaderValue::from_bytes(&[32, 33, 34]).expect("valid header value");
    assert!(assert_that(actual).get_ascii().is_equal_to(String::from(" !\"")).passed());
}

#[test]
fn panics_when_constructed_from_non_ascii_characters_through_str() {
    let actual = value("\u{c4}");
    let back = match assert_that(actual).try_get_ascii() {
        Ok(_) => panic!("the value is not visible ASCII"),
        Err(back) => back,
    };
    assert_eq!(back.panic_message().unwrap(), report("Actual: \"\\xc3\\x84\"\n\nis not valid ASCII"));
}

#[test]
fn panics_when_constructed_from_non_ascii_characters_through_bytes() {
    let actual = HeaderValue::from_bytes(&[32, 33, 255]).expect("valid header value");
    let back = match assert_that(&actual).try_get_ascii() {
        Ok(_) => panic!("the value is not visible ASCII"),
        Err(back) => back,
    };
    assert_eq!(back.panic_message().unwrap(), report("Actual: \" !\\xff\"\n\nis not valid ASCII"));
}

#[test]
fn succeeds_when_ascii_and_assertions_pass() {
    assert!(assert_that(value("http/1.1")).is_ascii_satisfying(|s| s.starts_with("http")).passed());
}

#[test]
fn collects_failure_in_capture_mode_when_ascii_but_assertion_fails() {
    let failures = assert_that(value("http/1.1"))
        .with_capture()
        .is_ascii_satisfying(|s| s.starts_with("ftp"))
        .into_failures();
    assert_eq!(failures.len(), 1);
}

#[test]
fn collects_failure_in_capture_mode_when_not_ascii() {
    let actual = HeaderValue::from_bytes(&[32, 33, 255]).expect("valid header value");
    let failures = assert_that(actual)
        .with_capture()
        .is_ascii_satisfying(|s| s.starts_with("http"))
        .into_failures();
    assert_eq!(failures.len(), 1);
    assert!(failures[0].to_human_readable_text().contains("is not valid ASCII"));
}

#[test]
fn panics_when_not_ascii_in_panic_mode() {
    let actual = HeaderValue::from_bytes(&[32, 33, 255]).expect("valid header value");
    let a = assert_that(actual).is_ascii_satisfying(|s| s.starts_with("http"));
    assert_eq!(a.panic_message().unwrap(), report("Actual: \" !\\xff\"\n\nis not valid ASCII"));
}

#[test]
fn header_value_sensitive_values_render_masked() {
    let mut actual = value("secret");
    actual.set_sensitive(true);
    let failures = assert_that(&actual).with_capture().is_empty().is_ascii_satisfying(|s| s.ends_with("x")).into_failures();
    assert_eq!(failures.len(), 2);
    assert_eq!(failures[0].actual.as_deref(), Some("6"));
}

#[test]
fn header_values_render_as_http_debug_writes_them() {
    let v = HeaderValue::from_bytes(b"a\"b\xff\t").unwrap();
    assert_eq!(v.render(), "\"a\\\"b\\xff\t\"");
    let mut secret = HeaderValue::from_static("token");
    secret.set_sensitive(true);
    assert_eq!(secret.render(), "Sensitive");
}
