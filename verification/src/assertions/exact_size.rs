//! Assertions on how many elements an iterator reports to have left, without advancing it.

use vstd::prelude::*;
use crate::assert_that::AssertThat;
use crate::assertions::iterator::size_hint_of;
use crate::failure::{AssertionFailure, FailureKind, FailureView, failure_with, with_fact};
use crate::render::{decimal_text, render_unsigned};
use crate::text::text_of;

verus! {

/// The lower bound of the iterator's own size hint, which for an exact-size iterator is the
/// number of elements it has left.
fn reported_len<I: Iterator>(iter: &I) -> (n: usize)
    ensures
        exists|hint: (usize, Option<usize>)| call_ensures(size_hint_of::<I>, (iter,), hint) && n == hint.0,
{
    let reported = size_hint_of::<I>;
    let hint = reported(iter);
    hint.0
}

/// The failure of `has_remaining_count`.
pub open spec fn remaining_count_failure(expected: int, actual: int) -> FailureView {
    with_fact(
        failure_with(
            FailureKind::Length,
            None,
            Some("does not have the expected remaining count"@),
            Some(decimal_text(expected)),
            None,
        ),
        Some("Actual remaining count"@),
        decimal_text(actual),
    )
}

/// The failure of `has_no_remaining_elements`.
pub open spec fn remaining_elements_failure(actual: int) -> FailureView {
    with_fact(
        failure_with(FailureKind::Length, None, Some("unexpectedly has remaining elements"@), None, None),
        Some("Remaining count"@),
        decimal_text(actual),
    )
}

/// The failure of `has_remaining_elements`.
pub open spec fn no_remaining_elements_failure() -> FailureView {
    failure_with(FailureKind::Length, None, Some("has no remaining elements"@), None, None)
}

/// Assertions on the remaining count an iterator reports; the iterator is not advanced.
pub trait ExactSizeIteratorAssertions: Sized {
    /// Asserts that the reported remaining count is `expected`.
    fn has_remaining_count(self, expected: usize) -> Self;

    /// Asserts that the reported remaining count is zero.
    fn has_no_remaining_elements(self) -> Self;

    /// Asserts that the reported remaining count is not zero.
    fn has_remaining_elements(self) -> Self;

    /// Fluent name of [`ExactSizeIteratorAssertions::has_remaining_count`].
    fn have_remaining_count(self, expected: usize) -> Self;

    /// Fluent name of [`ExactSizeIteratorAssertions::has_no_remaining_elements`].
    fn have_no_remaining_elements(self) -> Self;

    /// Fluent name of [`ExactSizeIteratorAssertions::has_remaining_elements`].
    fn have_remaining_elements(self) -> Self;
}

/// Settles `has_remaining_count` on a chain whose iterator reports `n` elements left.
pub fn settle_remaining_count<I>(a: AssertThat<I>, n: usize, expected: usize) -> (r: AssertThat<I>)
    ensures
        a.continues_as(&r, n == expected, remaining_count_failure(expected as int, n as int)),
{
    if n == expected {
        let ghost before = a;
        let r = a.pass();
        assert(before.continues_as(&r, n == expected, remaining_count_failure(expected as int, n as int)));
        r
    } else {
        let f = AssertionFailure::assemble(
            FailureKind::Length,
            None,
            Some(text_of("does not have the expected remaining count")),
            Some(render_unsigned(expected as u64)),
            None,
        );
        let f = f.add_fact(Some(text_of("Actual remaining count")), render_unsigned(n as u64));
        a.conclude(false, f)
    }
}

/// Settles `has_no_remaining_elements` on a chain whose iterator reports `n` elements left.
pub fn settle_no_remaining_elements<I>(a: AssertThat<I>, n: usize) -> (r: AssertThat<I>)
    ensures
        a.continues_as(&r, n == 0, remaining_elements_failure(n as int)),
{
    if n == 0 {
        let ghost before = a;
        let r = a.pass();
        assert(before.continues_as(&r, n == 0, remaining_elements_failure(n as int)));
        r
    } else {
        let f = AssertionFailure::assemble(
            FailureKind::Length,
            None,
            Some(text_of("unexpectedly has remaining elements")),
            None,
            None,
        );
        let f = f.add_fact(Some(text_of("Remaining count")), render_unsigned(n as u64));
        a.conclude(false, f)
    }
}

/// Whether a reported count `n` leaves elements.
pub open spec fn some_left(n: usize) -> bool {
    n != 0
}

/// Settles `has_remaining_elements` on a chain whose iterator reports `n` elements left.
pub fn settle_remaining_elements<I>(a: AssertThat<I>, n: usize) -> (r: AssertThat<I>)
    ensures
        a.continues_as(&r, some_left(n), no_remaining_elements_failure()),
{
    if n != 0 {
        let ghost before = a;
        let r = a.pass();
        assert(before.continues_as(&r, some_left(n), no_remaining_elements_failure()));
        r
    } else {
        let f = AssertionFailure::assemble(
            FailureKind::Length,
            None,
            Some(text_of("has no remaining elements")),
            None,
            None,
        );
        a.conclude(false, f)
    }
}

impl<I: Iterator> ExactSizeIteratorAssertions for AssertThat<I> {
    fn has_remaining_count(self, expected: usize) -> (r: Self)
        ensures
            exists|hint: (usize, Option<usize>)| call_ensures(size_hint_of::<I>, (&self.subject(),), hint) && self.continues_as(&r, hint.0 == expected, remaining_count_failure(expected as int, hint.0 as int)),
    {
        let n = reported_len(self.actual());
        settle_remaining_count(self, n, expected)
    }

    fn has_no_remaining_elements(self) -> (r: Self)
        ensures
            exists|hint: (usize, Option<usize>)| call_ensures(size_hint_of::<I>, (&self.subject(),), hint) && self.continues_as(&r, hint.0 == 0, remaining_elements_failure(hint.0 as int)),
    {
        let n = reported_len(self.actual());
        settle_no_remaining_elements(self, n)
    }

    fn has_remaining_elements(self) -> (r: Self)
        ensures
            exists|hint: (usize, Option<usize>)| call_ensures(size_hint_of::<I>, (&self.subject(),), hint) && self.continues_as(&r, some_left(hint.0), no_remaining_elements_failure()),
    {
        let n = reported_len(self.actual());
        settle_remaining_elements(self, n)
    }

    fn have_remaining_count(self, expected: usize) -> (r: Self)
        ensures
            exists|hint: (usize, Option<usize>)| call_ensures(size_hint_of::<I>, (&self.subject(),), hint) && self.continues_as(&r, hint.0 == expected, remaining_count_failure(expected as int, hint.0 as int)),
    {
        self.has_remaining_count(expected)
    }

    fn have_no_remaining_elements(self) -> (r: Self)
        ensures
            exists|hint: (usize, Option<usize>)| call_ensures(size_hint_of::<I>, (&self.subject(),), hint) && self.continues_as(&r, hint.0 == 0, remaining_elements_failure(hint.0 as int)),
    {
        self.has_no_remaining_elements()
    }

    fn have_remaining_elements(self) -> (r: Self)
        ensures
            exists|hint: (usize, Option<usize>)| call_ensures(size_hint_of::<I>, (&self.subject(),), hint) && self.continues_as(&r, some_left(hint.0), no_remaining_elements_failure()),
    {
        self.has_remaining_elements()
    }
}

} // verus!
