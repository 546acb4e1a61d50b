use assertr::assert_that::{assert_that, AssertThat};
use assertr::assertions::partial_eq::PartialEqAssertions;
use assertr::assertions::partial_ord::PartialOrdAssertions;
use assertr::assertions::result::{ResultAssertions, ResultExtractAssertions};
use assertr::assertions::string::StrAssertions;

const ERR_REPORT: &str = "-------- assertr --------\nExpression: `Result::<i32, String>::Err(\"someError\".to_owned())`\n\nActual: Err(\n    \"someError\",\n)\n\nis not the expected variant\n\nExpected: Result::Ok\n-------- assertr --------\n";

const OK_REPORT: &str = "-------- assertr --------\nExpression: `Result::<i32, String>::Ok(42)`\n\nActual: Ok(\n    42,\n)\n\nis not the expected variant\n\nExpected: Result::Err\n-------- assertr --------\n";

fn some_error() -> AssertThat<Result<i32, String>> {
    assert_that(Result::<i32, String>::Err("someError".to_owned()))
        .with_expression("Result::<i32, String>::Err(\"someError\".to_owned())")
}

fn ok_42() -> AssertThat<Result<i32, String>> {
    assert_that(Result::<i32, String>::Ok(42)).with_expression("Result::<i32, String>::Ok(42)")
}

#[test]
fn result_panics_when_error() {
    let a = some_error().is_ok();
    assert_eq!(a.panic_message().unwrap(), ERR_REPORT);
}

#[test]
fn result_works_in_capture_mode_and_allows_further_chaining() {
    let failures = some_error().with_capture().is_ok().is_err().into_failures();
    assert_eq!(failures.len(), 1);
    assert_eq!(failures[0].to_human_readable_text(), ERR_REPORT);
}

#[test]
fn result_panics_when_ok() {
    let a = ok_42().is_err();
    assert_eq!(a.panic_message().unwrap(), OK_REPORT);
}

#[test]
fn get_ok_panics_when_error() {
    let back = match some_error().try_get_ok() {
        Ok(_) => panic!("an error was extracted as a value"),
        Err(back) => back,
    };
    assert_eq!(back.panic_message().unwrap(), ERR_REPORT);
}

#[test]
fn get_err_panics_when_ok() {
    let back = match ok_42().try_get_err() {
        Ok(_) => panic!("a value was extracted as an error"),
        Err(back) => back,
    };
    assert_eq!(back.panic_message().unwrap(), OK_REPORT);
}

#[test]
fn captures_inner_failure_when_ok_and_assertion_fails() {
    let failures = assert_that(Result::<i32, ()>::Ok(42))
        .with_capture()
        .is_ok_satisfying(|ok_value| ok_value.is_greater_than(&9000))
        .into_failures();
    assert_eq!(failures.len(), 1);
    assert_eq!(
        failures[0].to_human_readable_text(),
        "-------- assertr --------\nActual: 42\n\nis not greater than\n\nExpected: 9000\n-------- assertr --------\n"
    );
}

#[test]
fn captures_variant_failure_when_err() {
    let failures = assert_that(Result::<i32, String>::Err(String::from("boom")))
        .with_expression("Result::<i32, String>::Err(String::from(\"boom\"))")
        .with_capture()
        .is_ok_satisfying(|_| panic!("assertions should not run"))
        .into_failures();
    assert_eq!(failures.len(), 1);
    assert_eq!(
        failures[0].to_human_readable_text(),
        "-------- assertr --------\nExpression: `Result::<i32, String>::Err(String::from(\"boom\"))`\n\nActual: Err(\n    \"boom\",\n)\n\nis not the expected variant\n\nExpected: Result::Ok\n-------- assertr --------\n"
    );
}

#[test]
fn captures_inner_failure_when_err_and_assertion_fails() {
    let failures = assert_that(Result::<(), String>::Err(String::from("boom")))
        .with_capture()
        .is_err_satisfying(|err| err.contains("xyz"))
        .into_failures();
    assert_eq!(failures.len(), 1);
    assert_eq!(
        failures[0].to_human_readable_text(),
        "-------- assertr --------\nActual: \"boom\"\n\ndoes not contain\n\nExpected: \"xyz\"\n-------- assertr --------\n"
    );
}

#[test]
fn captures_variant_failure_when_ok() {
    let failures = ok_42()
        .with_capture()
        .is_err_satisfying(|_| panic!("assertions should not run"))
        .into_failures();
    assert_eq!(failures.len(), 1);
    assert_eq!(failures[0].to_human_readable_text(), OK_REPORT);
}

#[test]
fn result_extracts_the_borrowed_inner_value() {
    let result: Result<String, ()> = Ok(String::from("value"));
    assert!(assert_that(&result).get_ok().is_equal_to(&String::from("value")).passed());
    assert!(assert_that(&result).is_ok().passed());
    let failed: Result<(), String> = Err(String::from("someError"));
    assert!(assert_that(&failed).get_err().is_equal_to(&String::from("someError")).passed());
    assert!(assert_that(&failed).is_err().passed());
}

#[test]
fn result_extracts_the_owned_inner_value() {
    assert!(assert_that(Result::<String, ()>::Ok(String::from("value"))).get_ok().is_equal_to("value").passed());
    assert!(assert_that(Result::<(), String>::Err(String::from("someError"))).get_err().is_equal_to("someError").passed());
}

#[test]
fn extraction_counts_as_one_assertion() {
    let result: Result<i32, ()> = Ok(42);
    let a = assert_that(&result);
    assert_eq!(a.assertion_count_of(), 0);
    let inner = a.get_ok();
    assert_eq!(inner.assertion_count_of(), 1);
    assert_eq!(inner.is_equal_to(&42).assertion_count_of(), 2);
    let tried = assert_that(Result::<i32, i32>::Err(7)).with_capture().try_get_ok();
    match tried {
        Ok(_) => panic!("an error was extracted as a value"),
        Err(back) => {
            assert_eq!(back.assertion_count_of(), 1);
            assert_eq!(back.into_failures().len(), 1);
        },
    }
}

#[test]
fn succeeds_when_ok_and_assertions_pass() {
    assert!(assert_that(Result::<i32, ()>::Ok(42)).is_ok_satisfying(|ok| ok.is_equal_to(&42)).passed());
    assert!(assert_that(Result::<(), String>::Err(String::from("boom")))
        .is_err_satisfying(|err| err.contains("oo").starts_with("b"))
        .passed());
}

#[test]
fn satisfying_checks_count_one_assertion_either_way() {
    let a = assert_that(Result::<i32, String>::Err(String::from("boom")))
        .with_capture()
        .is_err_satisfying(|err| err.contains("xyz"));
    assert_eq!(a.assertion_count_of(), 1);
    let a = assert_that(Result::<i32, String>::Ok(42)).with_capture().is_err_satisfying(|err| err.contains("xyz"));
    assert_eq!(a.assertion_count_of(), 1);
    let a = assert_that(Result::<i32, String>::Ok(42)).is_ok_satisfying(|ok| ok.is_equal_to(&42));
    assert_eq!(a.assertion_count_of(), 1);
}
