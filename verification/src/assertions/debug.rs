//! Assertions on the `Debug`-like rendering of a subject.
//!
//! The rendering is the one [`Render`] gives: for the standard value types it is the text
//! `{:?}` formats; other types state theirs by implementing [`Render`].

use vstd::prelude::*;
use crate::assert_that::{AssertThat, Expectation};
use crate::assertions::string::StrLike;
use crate::failure::{AssertionFailure, FailureKind, FailureView, failure_with};
use crate::render::{Render, render_str_debug, str_debug_text};
use crate::text::same_text;

verus! {

/// The failure of a representation check: the actual and the expected text, each shown
/// quoted, side by side.
pub open spec fn representation_failure(actual: Seq<char>, expected: Seq<char>) -> FailureView {
    failure_with(FailureKind::Equality, Some(str_debug_text(actual)), None, Some(str_debug_text(expected)), None)
}

/// Explains a representation mismatch.
pub fn explain_representation(actual: &str, expected: &str) -> (f: AssertionFailure)
    ensures
        f@ == representation_failure(actual@, expected@),
{
    AssertionFailure::assemble(
        FailureKind::Equality,
        Some(render_str_debug(actual)),
        None,
        Some(render_str_debug(expected)),
        None,
    )
}

/// Requires the subject to render exactly as the expected string.
pub struct HasDebugString<E>(pub E);

impl<E> HasDebugString<E> {
    /// Owns the expected rendering.
    pub fn new(expected: E) -> (m: Self)
        ensures
            m.0 == expected,
    {
        HasDebugString(expected)
    }
}

impl<T: Render + ?Sized, E: StrLike> Expectation<T> for HasDebugString<E> {
    open spec fn applicable(&self, actual: &T) -> bool {
        true
    }

    open spec fn admits(&self, actual: &T, ok: bool) -> bool {
        ok == (actual.rendered() == self.0.text())
    }

    open spec fn rejection(&self, actual: &T) -> FailureView {
        representation_failure(actual.rendered(), self.0.text())
    }

    fn evaluate(&self, actual: &T) -> (ok: bool) {
        let shown = actual.render();
        same_text(shown.as_str(), self.0.as_text())
    }

    fn explain(&self, actual: &T) -> (f: AssertionFailure) {
        let shown = actual.render();
        explain_representation(shown.as_str(), self.0.as_text())
    }
}

/// Requires the subject to render as the expected value renders.
pub struct HasDebugValue<E>(pub E);

impl<E> HasDebugValue<E> {
    /// Owns the expected value.
    pub fn new(expected: E) -> (m: Self)
        ensures
            m.0 == expected,
    {
        HasDebugValue(expected)
    }
}

impl<T: Render + ?Sized, E: Render> Expectation<T> for HasDebugValue<E> {
    open spec fn applicable(&self, actual: &T) -> bool {
        true
    }

    open spec fn admits(&self, actual: &T, ok: bool) -> bool {
        ok == (actual.rendered() == self.0.rendered())
    }

    open spec fn rejection(&self, actual: &T) -> FailureView {
        representation_failure(actual.rendered(), self.0.rendered())
    }

    fn evaluate(&self, actual: &T) -> (ok: bool) {
        let shown = actual.render();
        let wanted = self.0.render();
        same_text(shown.as_str(), wanted.as_str())
    }

    fn explain(&self, actual: &T) -> (f: AssertionFailure) {
        let shown = actual.render();
        let wanted = self.0.render();
        explain_representation(shown.as_str(), wanted.as_str())
    }
}

/// Assertions on the rendering of a subject.
pub trait DebugAssertions: Sized {
    /// Asserts that the subject renders exactly as `expected`.
    fn has_debug_string<E: StrLike>(self, expected: E) -> Self;

    /// Asserts that the subject renders as `expected` renders.
    fn has_debug_value<E: Render>(self, expected: E) -> Self;

    /// Fluent name of [`DebugAssertions::has_debug_string`].
    fn have_debug_string<E: StrLike>(self, expected: E) -> Self;

    /// Fluent name of [`DebugAssertions::has_debug_value`].
    fn have_debug_value<E: Render>(self, expected: E) -> Self;
}

impl<T: Render> DebugAssertions for AssertThat<T> {
    fn has_debug_string<E: StrLike>(self, expected: E) -> (r: Self)
        ensures
            self.continues_as(
                &r,
                self.subject().rendered() == expected.text(),
                representation_failure(self.subject().rendered(), expected.text()),
            ),
    {
        self.apply_assertion(&HasDebugString::new(expected))
    }

    fn has_debug_value<E: Render>(self, expected: E) -> (r: Self)
        ensures
            self.continues_as(
                &r,
                self.subject().rendered() == expected.rendered(),
                representation_failure(self.subject().rendered(), expected.rendered()),
            ),
    {
        self.apply_assertion(&HasDebugValue::new(expected))
    }

    fn have_debug_string<E: StrLike>(self, expected: E) -> (r: Self)
        ensures
            self.continues_as(
                &r,
                self.subject().rendered() == expected.text(),
                representation_failure(self.subject().rendered(), expected.text()),
            ),
    {
        self.has_debug_string(expected)
    }

    fn have_debug_value<E: Render>(self, expected: E) -> (r: Self)
        ensures
            self.continues_as(
                &r,
                self.subject().rendered() == expected.rendered(),
                representation_failure(self.subject().rendered(), expected.rendered()),
            ),
    {
        self.has_debug_value(expected)
    }
}

} // verus!
