use assertr::assert_that::assert_that;
use assertr::assertions::collection::Collection;
use assertr::assertions::into_iterator::IntoIteratorAssertions;
use assertr::assertions::iterator::IteratorAssertions;
use assertr::render::Render;
use core::cell::Cell;

struct Counted<'a> {
    values: &'a [i32],
    calls: Cell<usize>,
}

impl<'a, 'b> Collection for &'a Counted<'b> {
    type Item = i32;

    fn element_slice(&self) -> &[i32] {
        self.calls.set(self.calls.get() + 1);
        self.values
    }
}

#[test]
fn each_borrowed_assertion_creates_exactly_one_fresh_iterator() {
    let values = Counted { values: &[1, 2, 3], calls: Cell::new(0) };
    assert!(assert_that(&values)
        .into_iter_contains(2)
        .into_iter_contains_all(&[1, 3])
        .into_iter_does_not_contain(4)
        .into_iter_has_length(3)
        .passed());
    assert_eq!(values.calls.get(), 4);
}

#[test]
fn equality_rejections_do_not_repeat_comparisons() {
    struct Counting<'a>(&'a Cell<usize>);
    impl PartialEq for Counting<'_> {
        fn eq(&self, _: &Self) -> bool {
            self.0.set(self.0.get() + 1);
            false
        }
    }
    impl Render for Counting<'_> {
        fn render(&self) -> String {
            String::from("Counting")
        }
    }
    for method in 0..3 {
        let calls = Cell::new(0);
        let it = assert_that([Counting(&calls)].into_iter()).with_capture();
        let expected = [Counting(&calls)];
        let failures = match method {
            0 => it.starts_with(&expected),
            1 => it.ends_with(&expected),
            _ => it.contains_exactly(&expected),
        }
        .into_failures();
        assert_eq!(calls.get(), 1);
        assert_eq!(failures.len(), 1);
    }
}

fn counting_naturals(calls: &Cell<i32>) -> impl Iterator<Item = i32> + '_ {
    core::iter::from_fn(move || {
        let value = calls.get();
        calls.set(value + 1);
        Some(value)
    })
}

#[test]
fn decisive_streaming_assertions_stop_immediately() {
    let calls = Cell::new(0);
    assert!(assert_that(counting_naturals(&calls)).contains(2).passed());
    assert_eq!(calls.get(), 3);

    let calls = Cell::new(0);
    let failures = assert_that(counting_naturals(&calls)).with_capture().does_not_contain(2).into_failures();
    assert_eq!(calls.get(), 3);
    assert_eq!(failures.len(), 1);

    let calls = Cell::new(0);
    assert!(assert_that(counting_naturals(&calls)).contains_contiguous(&[2, 3]).passed());
    assert_eq!(calls.get(), 4);
}

#[test]
fn empty_sequence_criteria_are_decisive_without_consumption() {
    let calls = Cell::new(0);
    assert!(assert_that(counting_naturals(&calls)).starts_with::<i32>(&[]).passed());
    assert_eq!(calls.get(), 0);

    let calls = Cell::new(0);
    assert!(assert_that(counting_naturals(&calls)).ends_with::<i32>(&[]).passed());
    assert_eq!(calls.get(), 0);

    let calls = Cell::new(0);
    assert!(assert_that(counting_naturals(&calls)).contains_contiguous::<i32>(&[]).passed());
    assert_eq!(calls.get(), 0);
}

#[test]
fn exact_assertions_consume_at_most_expected_length_plus_one() {
    let calls = Cell::new(0);
    let failures = assert_that(counting_naturals(&calls)).with_capture().contains_exactly(&[0, 9, 2]).into_failures();
    assert_eq!(calls.get(), 2);
    assert_eq!(failures.len(), 1);

    let calls = Cell::new(0);
    let failures = assert_that(counting_naturals(&calls))
        .with_capture()
        .contains_exactly_in_any_order(&[0, 1, 2])
        .into_failures();
    assert_eq!(calls.get(), 4);
    assert_eq!(failures.len(), 1);
}

#[test]
fn capture_mode_scopes_assertion_details_to_their_failure() {
    let failures = assert_that(vec![1, 2, 3])
        .with_detail_message("user context")
        .with_capture()
        .into_iter_does_not_contain(2)
        .into_iter_contains(9)
        .into_failures();
    assert_eq!(failures.len(), 2);
    for failure in &failures {
        assert_eq!(failure.details, vec![String::from("user context")]);
        assert!(failure.facts.iter().all(|f| f.label.as_deref() != Some("Decisive index")));
    }
}

#[test]
fn non_copy_expected_values_can_be_reused_by_streaming_scans() {
    let a = String::from("a");
    let b = String::from("b");
    assert!(assert_that([String::from("a")].into_iter()).contains(a.as_str()).passed());
    assert!(assert_that([String::from("a")].into_iter()).does_not_contain(b.as_str()).passed());
    assert!(assert_that([String::from("a")].into_iter()).starts_with(&[a.as_str()]).passed());
    assert!(assert_that([String::from("a")].into_iter()).ends_with(&[a.as_str()]).passed());
    assert!(assert_that([String::from("a")].into_iter()).contains_contiguous(&[a.as_str()]).passed());
    assert!(assert_that([String::from("a")].into_iter()).contains_exactly(&[a.as_str()]).passed());
    assert!(assert_that([String::from("a")].into_iter()).contains_exactly_in_any_order(&[a.as_str()]).passed());
    assert!(assert_that([String::from("a")])
        .into_iter_contains(a.as_str())
        .into_iter_does_not_contain(b.as_str())
        .into_iter_contains_all(&[a.as_str()])
        .into_iter_contains_exactly_in_any_order(&[a.as_str()])
        .passed());
    assert!(assert_that([&a].into_iter()).contains(&a).passed());
}

#[test]
fn failure_preview_is_capped_and_retains_the_decisive_item() {
    let failures = assert_that(0..100).with_capture().does_not_contain(99).into_failures();
    let failure = failures[0].to_human_readable_text();
    assert!(failure.contains("last 16 consumed elements"));
    assert!(failure.contains("84,"));
    assert!(failure.contains("99,"));
    assert!(!failure.contains("83,"));
    assert!(failure.contains("Decisive index: 99"));
}

#[test]
fn failure_locations_point_at_the_callers_assertion() {
    let here = "tests/iter_mod.rs:1:1";
    let failures = assert_that([1, 2, 3].into_iter()).with_location(here).with_capture().contains(9).into_failures();
    assert!(failures[0].location.as_deref().unwrap().contains("tests/iter_mod.rs"));
    let failures = assert_that(vec![1, 2, 3]).with_location(here).with_capture().into_iter_contains(9).into_failures();
    assert!(failures[0].location.as_deref().unwrap().contains("tests/iter_mod.rs"));
}

#[test]
fn sequence_views_are_accessed_after_tracking() {
    for method in 0..5 {
        let child = assert_that([1].into_iter()).with_capture();
        let expected = [9];
        let done = match method {
            0 => child.starts_with(&expected),
            1 => child.ends_with(&expected),
            2 => child.contains_contiguous(&expected),
            3 => child.contains_exactly(&expected),
            _ => child.contains_exactly_in_any_order(&expected),
        };
        assert_eq!(done.assertion_count_of(), 1);
        assert_eq!(done.into_failures().len(), 1);
    }
}
