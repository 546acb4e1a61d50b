//! Assertions on the Display text of a subject.
//!
//! The text is the one [`DisplayText`] gives: for the standard value types it is the text
//! `{}` formats; other types state theirs by implementing [`DisplayText`].

use vstd::prelude::*;
use crate::assert_that::{AssertThat, Expectation};
use crate::assertions::debug::{explain_representation, representation_failure};
use crate::failure::{AssertionFailure, FailureView};
use crate::render::DisplayText;
use crate::text::same_text;

verus! {

/// Requires the subject to be displayed as the expected value is displayed.
pub struct HasDisplayValue<E>(pub E);

impl<E> HasDisplayValue<E> {
    /// Owns the expected value.
    pub fn new(expected: E) -> (m: Self)
        ensures
            m.0 == expected,
    {
        HasDisplayValue(expected)
    }
}

impl<T: DisplayText + ?Sized, E: DisplayText> Expectation<T> for HasDisplayValue<E> {
    open spec fn applicable(&self, actual: &T) -> bool {
        true
    }

    open spec fn admits(&self, actual: &T, ok: bool) -> bool {
        ok == (actual.displayed() == self.0.displayed())
    }

    open spec fn rejection(&self, actual: &T) -> FailureView {
        representation_failure(actual.displayed(), self.0.displayed())
    }

    fn evaluate(&self, actual: &T) -> (ok: bool) {
        let shown = actual.display_text();
        let wanted = self.0.display_text();
        same_text(shown.as_str(), wanted.as_str())
    }

    fn explain(&self, actual: &T) -> (f: AssertionFailure) {
        let shown = actual.display_text();
        let wanted = self.0.display_text();
        explain_representation(shown.as_str(), wanted.as_str())
    }
}

/// Assertions on the Display text of a subject.
pub trait DisplayAssertions: Sized {
    /// Asserts that the subject is displayed as `expected` is displayed.
    fn has_display_value<E: DisplayText>(self, expected: E) -> Self;

    /// Fluent name of [`DisplayAssertions::has_display_value`].
    fn have_display_value<E: DisplayText>(self, expected: E) -> Self;
}

impl<T: DisplayText> DisplayAssertions for AssertThat<T> {
    fn has_display_value<E: DisplayText>(self, expected: E) -> (r: Self)
        ensures
            self.continues_as(
                &r,
                self.subject().displayed() == expected.displayed(),
                representation_failure(self.subject().displayed(), expected.displayed()),
            ),
    {
        self.apply_assertion(&HasDisplayValue::new(expected))
    }

    fn have_display_value<E: DisplayText>(self, expected: E) -> (r: Self)
        ensures
            self.continues_as(
                &r,
                self.subject().displayed() == expected.displayed(),
                representation_failure(self.subject().displayed(), expected.displayed()),
            ),
    {
        self.has_display_value(expected)
    }
}

} // verus!
