use assertr::assert_that::{assert_that, AssertThat, Must};
use assertr::assertions::ref_cell::{IsBorrowed, IsMutablyBorrowed, IsNotMutablyBorrowed, RefCellAssertions};
use std::cell::RefCell;

fn uses_ref_cell_assertions<A: RefCellAssertions<i32>>(a: A) -> A {
    a.is_not_mutably_borrowed()
}

#[test]
fn ref_cell_trait_is_implemented_without_renderer_support() {
    let a: AssertThat<RefCell<i32>> = uses_ref_cell_assertions(assert_that(RefCell::new(1)));
    assert!(a.passed());
}

#[test]
fn composed_checks_release_rejected_and_successful_borrows_between_siblings() {
    let cell = RefCell::new(7);
    assert_eq!(IsBorrowed.observe(&cell).as_deref(), Some("7"));
    assert_eq!(IsMutablyBorrowed.observe(&cell).as_deref(), Some("7"));
    assert!(IsNotMutablyBorrowed.observe(&cell));
    assert!(cell.try_borrow_mut().is_ok());
    let failures = assert_that(&cell).with_capture().is_borrowed().is_mutably_borrowed().into_failures();
    assert_eq!(failures.len(), 2);
}

#[test]
fn failures_render_the_inner_value_with_the_active_renderer() {
    let cell = RefCell::new(String::from("secret"));
    let failures = assert_that(&cell).with_capture().is_borrowed().into_failures();
    let text = failures[0].to_human_readable_text();
    assert!(text.contains("RefCell {"));
    assert!(text.contains("secret"));
}

#[test]
fn ref_cell_fluent_alias_is_as_expected() {
    let cell = RefCell::new(42);
    let borrow = cell.borrow();
    assert!((&cell).must().be_borrowed().passed());
    drop(borrow);
    let borrow = cell.borrow_mut();
    assert!((&cell).must().be_mutably_borrowed().passed());
    drop(borrow);
    assert!(RefCell::new(42).must().not_be_mutably_borrowed().passed());
}

#[test]
fn succeeds_when_borrowed() {
    let cell = RefCell::new(42);
    let borrow = cell.borrow();
    assert!(assert_that(&cell).is_borrowed().passed());
    drop(borrow);
}

#[test]
fn ref_cell_succeeds_when_mutably_borrowed() {
    let cell = RefCell::new(42);
    let borrow = cell.borrow_mut();
    assert!(assert_that(&cell).is_borrowed().passed());
    assert!(assert_that(&cell).is_mutably_borrowed().passed());
    drop(borrow);
}

#[test]
fn panics_when_not_borrowed() {
    let cell = RefCell::new(42);
    let a = assert_that(&cell).with_expression("&cell").is_borrowed();
    assert_eq!(
        a.panic_message().unwrap(),
        "-------- assertr --------\nExpression: `&cell`\n\nActual: RefCell {\n    value: 42,\n}\n\nis not borrowed\n-------- assertr --------\n"
    );
}

#[test]
fn succeeds_when_not_borrowed_at_all() {
    let cell = RefCell::new(42);
    assert!(assert_that(&cell).is_not_mutably_borrowed().passed());
}

#[test]
fn succeeds_when_immutably_borrowed() {
    let cell = RefCell::new(42);
    let borrow = cell.borrow();
    assert!(assert_that(&cell).is_not_mutably_borrowed().passed());
    drop(borrow);
}

#[test]
fn panics_when_mutably_borrowed() {
    let cell = RefCell::new(42);
    let borrow = cell.borrow_mut();
    let a = assert_that(&cell).with_expression("&cell").is_not_mutably_borrowed();
    assert_eq!(
        a.panic_message().unwrap(),
        "-------- assertr --------\nExpression: `&cell`\n\nActual: RefCell {\n    value: <borrowed>,\n}\n\nis unexpectedly mutably borrowed\n-------- assertr --------\n"
    );
    drop(borrow);
}

#[test]
fn ref_cell_observations_follow_the_borrows_alive() {
    let cell = RefCell::new(3);
    let shared = cell.borrow();
    assert_eq!(IsBorrowed.observe(&cell), None);
    assert_eq!(IsMutablyBorrowed.observe(&cell).as_deref(), Some("3"));
    drop(shared);
    let exclusive = cell.borrow_mut();
    assert_eq!(IsMutablyBorrowed.observe(&cell), None);
    assert!(!IsNotMutablyBorrowed.observe(&cell));
    drop(exclusive);
}
