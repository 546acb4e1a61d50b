//! Equality and inequality assertions using `PartialEq`.

use vstd::prelude::*;
use crate::assert_that::{AssertThat, Expectation};
use crate::failure::{AssertionFailure, FailureKind, FailureView, failure_with};
use crate::render::Render;
use crate::text::text_of;
use vstd::std_specs::cmp::PartialEqSpec;

verus! {

/// Whether `actual == expected` according to the specification of `T`'s `PartialEq`.
pub open spec fn equals<T: PartialEq<E>, E>(actual: &T, expected: &E) -> bool {
    actual.eq_spec(expected)
}

/// Whether `ok` is a possible verdict of `actual == expected`: the specified one when
/// `T`'s `PartialEq` follows its specification, any verdict otherwise.
pub open spec fn equality_verdict<T: PartialEq<E>, E>(actual: &T, expected: &E, ok: bool) -> bool {
    T::obeys_eq_spec() ==> ok == equals(actual, expected)
}

/// The failure of `is_equal_to`: both operands, side by side.
pub open spec fn not_equal_failure<T: Render, E: Render>(actual: &T, expected: &E) -> FailureView {
    failure_with(FailureKind::Equality, Some(actual.rendered()), None, Some(expected.rendered()), None)
}

/// The failure of `is_not_equal_to`: the subject equals the unexpected operand.
pub open spec fn equal_failure<T: Render, E: Render>(actual: &T, unexpected: &E) -> FailureView {
    failure_with(
        FailureKind::Equality,
        Some(actual.rendered()),
        Some("is equal to"@),
        None,
        Some(unexpected.rendered()),
    )
}

/// Reusable equality with an expected value.
pub struct EqualTo<E>(pub E);

/// Matches through the subject's `PartialEq` implementation.
pub fn equal_to<E>(expected: E) -> (e: EqualTo<E>)
    ensures
        e.0 == expected,
{
    EqualTo::new(expected)
}

impl<E> EqualTo<E> {
    /// Owns the expected operand.
    pub fn new(expected: E) -> (e: Self)
        ensures
            e.0 == expected,
    {
        EqualTo(expected)
    }
}

/// Inequality: the subject must not equal the operand.
pub struct NotEqualTo<E>(pub E);

impl<E> NotEqualTo<E> {
    /// Owns the operand that must not equal the subject.
    pub fn new(unexpected: E) -> (e: Self)
        ensures
            e.0 == unexpected,
    {
        NotEqualTo(unexpected)
    }
}

impl<T: PartialEq<E> + Render, E: Render> Expectation<T> for EqualTo<E> {
    open spec fn applicable(&self, actual: &T) -> bool {
        true
    }

    open spec fn admits(&self, actual: &T, ok: bool) -> bool {
        equality_verdict(actual, &self.0, ok)
    }

    open spec fn rejection(&self, actual: &T) -> FailureView {
        not_equal_failure(actual, &self.0)
    }

    fn evaluate(&self, actual: &T) -> (ok: bool) {
        actual.eq(&self.0)
    }

    fn explain(&self, actual: &T) -> (f: AssertionFailure) {
        AssertionFailure::assemble(
            FailureKind::Equality,
            Some(actual.render()),
            None,
            Some(self.0.render()),
            None,
        )
    }
}

impl<T: PartialEq<E> + Render, E: Render> Expectation<T> for NotEqualTo<E> {
    open spec fn applicable(&self, actual: &T) -> bool {
        true
    }

    open spec fn admits(&self, actual: &T, ok: bool) -> bool {
        equality_verdict(actual, &self.0, !ok)
    }

    open spec fn rejection(&self, actual: &T) -> FailureView {
        equal_failure(actual, &self.0)
    }

    fn evaluate(&self, actual: &T) -> (ok: bool) {
        !actual.eq(&self.0)
    }

    fn explain(&self, actual: &T) -> (f: AssertionFailure) {
        AssertionFailure::assemble(
            FailureKind::Equality,
            Some(actual.render()),
            Some(text_of("is equal to")),
            None,
            Some(self.0.render()),
        )
    }
}

/// Equality and inequality assertions using `PartialEq`.
pub trait PartialEqAssertions<T>: Sized {
    /// Asserts that the subject equals `expected`.
    fn is_equal_to<E: Render>(self, expected: E) -> Self
        where
            T: PartialEq<E> + Render,
    ;

    /// Asserts that the subject does not equal `unexpected`.
    fn is_not_equal_to<E: Render>(self, unexpected: E) -> Self
        where
            T: PartialEq<E> + Render,
    ;

    /// Fluent name of [`PartialEqAssertions::is_equal_to`].
    fn be_equal_to<E: Render>(self, expected: E) -> Self
        where
            T: PartialEq<E> + Render,
    ;

    /// Fluent name of [`PartialEqAssertions::is_not_equal_to`].
    fn not_be_equal_to<E: Render>(self, unexpected: E) -> Self
        where
            T: PartialEq<E> + Render,
    ;
}

impl<T> PartialEqAssertions<T> for AssertThat<T> {
    fn is_equal_to<E: Render>(self, expected: E) -> (r: Self)
        where
            T: PartialEq<E> + Render,
        ensures
            exists|ok: bool|
                equality_verdict(&self.subject(), &expected, ok) && self.continues_as(
                    &r,
                    ok,
                    not_equal_failure(&self.subject(), &expected),
                ),
    {
        self.apply_assertion(&EqualTo::new(expected))
    }

    fn is_not_equal_to<E: Render>(self, unexpected: E) -> (r: Self)
        where
            T: PartialEq<E> + Render,
        ensures
            exists|ok: bool|
                equality_verdict(&self.subject(), &unexpected, !ok) && self.continues_as(
                    &r,
                    ok,
                    equal_failure(&self.subject(), &unexpected),
                ),
    {
        self.apply_assertion(&NotEqualTo::new(unexpected))
    }

    fn be_equal_to<E: Render>(self, expected: E) -> (r: Self)
        where
            T: PartialEq<E> + Render,
        ensures
            exists|ok: bool|
                equality_verdict(&self.subject(), &expected, ok) && self.continues_as(
                    &r,
                    ok,
                    not_equal_failure(&self.subject(), &expected),
                ),
    {
        self.is_equal_to(expected)
    }

    fn not_be_equal_to<E: Render>(self, unexpected: E) -> (r: Self)
        where
            T: PartialEq<E> + Render,
        ensures
            exists|ok: bool|
                equality_verdict(&self.subject(), &unexpected, !ok) && self.continues_as(
                    &r,
                    ok,
                    equal_failure(&self.subject(), &unexpected),
                ),
    {
        self.is_not_equal_to(unexpected)
    }
}

} // verus!
