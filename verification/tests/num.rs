use assertr::assert_that::assert_that;
use assertr::assertions::num::NumAssertions;

#[test]
fn quick_type_check() {
    assert!(assert_that(0u8).is_zero().passed());
    assert!(assert_that(0i8).is_zero().passed());
    assert!(assert_that(0u16).is_zero().passed());
    assert!(assert_that(0i16).is_zero().passed());
    assert!(assert_that(0u32).is_zero().passed());
    assert!(assert_that(0i32).is_zero().passed());
    assert!(assert_that(0u64).is_zero().passed());
    assert!(assert_that(0i64).is_zero().passed());
    assert!(assert_that(0usize).is_zero().passed());
    assert!(assert_that(0isize).is_zero().passed());

    assert!(assert_that(1u8).is_one().passed());
    assert!(assert_that(1i8).is_one().passed());
    assert!(assert_that(1u16).is_one().passed());
    assert!(assert_that(1i16).is_one().passed());
    assert!(assert_that(1u32).is_one().passed());
    assert!(assert_that(1i32).is_one().passed());
    assert!(assert_that(1u64).is_one().passed());
    assert!(assert_that(1i64).is_one().passed());
    assert!(assert_that(1usize).is_one().passed());
    assert!(assert_that(1isize).is_one().passed());

    assert!(assert_that(42u8).is_close_to(42, 0).passed());
    assert!(assert_that(42i8).is_close_to(42, 0).passed());
    assert!(assert_that(42u16).is_close_to(42, 0).passed());
    assert!(assert_that(42i16).is_close_to(42, 0).passed());
    assert!(assert_that(42u32).is_close_to(42, 0).passed());
    assert!(assert_that(42i32).is_close_to(42, 0).passed());
    assert!(assert_that(42u64).is_close_to(42, 0).passed());
    assert!(assert_that(42i64).is_close_to(42, 0).passed());
}

#[test]
fn succeeds_when_actual_is_zero() {
    assert!(assert_that(0).is_zero().passed());
}

#[test]
fn succeeds_when_actual_is_one() {
    assert!(assert_that(1).is_one().passed());
}

#[test]
fn num_succeeds_when_actual_is_in_the_allowed_interval() {
    assert_eq!(assert_that(3318).with_capture().is_close_to(3330, 10).into_failures().len(), 1);
    assert!(assert_that(3320).is_close_to(3330, 10).passed());
    assert!(assert_that(3330).is_close_to(3330, 10).passed());
    assert!(assert_that(3340).is_close_to(3330, 10).passed());
    assert_eq!(assert_that(3341).with_capture().is_close_to(3330, 10).into_failures().len(), 1);
}

#[test]
fn num_failures_show_the_expected_value_and_interval() {
    let a = assert_that(5).is_zero();
    assert_eq!(
        a.panic_message().unwrap(),
        "-------- assertr --------\nExpected: 0\n\n  Actual: 5\n-------- assertr --------\n"
    );
    let a = assert_that(-3i64).is_one();
    assert!(a.panic_message().unwrap().contains("Expected: 1\n\n  Actual: -3"));
    let a = assert_that(50u8).is_close_to(40, 5);
    assert_eq!(
        a.panic_message().unwrap(),
        "-------- assertr --------\nActual: 50\n\nis not in range\n\nExpected: [35, 45]\n-------- assertr --------\n"
    );
}
