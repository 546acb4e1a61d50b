//! Assertions on boolean subjects.

use vstd::prelude::*;
use crate::assert_that::AssertThat;
use crate::failure::{AssertionFailure, FailureKind, FailureView, failure_with};
use crate::render::Render;
use crate::text::text_of;

verus! {

/// The failure of `is_true` on `false`, or of `is_false` on `true`.
pub open spec fn bool_failure(actual: bool, relation: Seq<char>) -> FailureView {
    failure_with(FailureKind::Equality, Some(actual.rendered()), Some(relation), None, None)
}

/// Assertions for boolean values.
pub trait BoolAssertions: Sized {
    /// Asserts that the subject is `true`.
    fn is_true(self) -> Self;

    /// Asserts that the subject is `false`.
    fn is_false(self) -> Self;

    /// Fluent name of [`BoolAssertions::is_true`].
    fn be_true(self) -> Self;

    /// Fluent name of [`BoolAssertions::is_false`].
    fn be_false(self) -> Self;
}

impl BoolAssertions for AssertThat<bool> {
    fn is_true(self) -> (r: Self)
        ensures
            self.continues_as(&r, self.subject(), bool_failure(self.subject(), "is not true"@)),
    {
        let actual = *self.actual();
        let failure = AssertionFailure::assemble(
            FailureKind::Equality,
            Some(actual.render()),
            Some(text_of("is not true")),
            None,
            None,
        );
        self.conclude(actual, failure)
    }

    fn is_false(self) -> (r: Self)
        ensures
            self.continues_as(&r, !self.subject(), bool_failure(self.subject(), "is not false"@)),
    {
        let actual = *self.actual();
        let failure = AssertionFailure::assemble(
            FailureKind::Equality,
            Some(actual.render()),
            Some(text_of("is not false")),
            None,
            None,
        );
        self.conclude(!actual, failure)
    }

    fn be_true(self) -> (r: Self)
        ensures
            self.continues_as(&r, self.subject(), bool_failure(self.subject(), "is not true"@)),
    {
        self.is_true()
    }

    fn be_false(self) -> (r: Self)
        ensures
            self.continues_as(&r, !self.subject(), bool_failure(self.subject(), "is not false"@)),
    {
        self.is_false()
    }
}

} // verus!
