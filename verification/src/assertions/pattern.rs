//! Assertions that a subject matches, or does not match, a described pattern.
//!
//! A [`Pattern`] pairs the text of a pattern with the test that decides it, such as
//! `Pattern::new("Some(_)", |v: &Option<i32>| matches!(v, Some(_)))`.

use vstd::prelude::*;
use crate::assert_that::{AssertThat, Expectation};
use crate::failure::{AssertionFailure, FailureKind, FailureView, failure_with};
use crate::render::Render;
use crate::text::text_of;

verus! {

/// A pattern: its text, and the test that tells whether a value matches it.
pub struct Pattern<P> {
    pub description: &'static str,
    pub predicate: P,
}

impl<P> Pattern<P> {
    /// Pairs the text of a pattern with its test.
    pub fn new(description: &'static str, predicate: P) -> (p: Self)
        ensures
            p.description == description,
            p.predicate == predicate,
    {
        Pattern { description, predicate }
    }
}

/// The failure of a pattern check on `actual`: for a positive check the pattern was
/// expected and did not match; for a negative one it matched unexpectedly.
pub open spec fn pattern_rejection<T: Render>(actual: &T, description: Seq<char>, negative: bool) -> FailureView {
    if negative {
        failure_with(
            FailureKind::Predicate,
            Some(actual.rendered()),
            Some("matches the pattern"@),
            None,
            Some(description),
        )
    } else {
        failure_with(
            FailureKind::Predicate,
            Some(actual.rendered()),
            Some("does not match the pattern"@),
            Some(description),
            None,
        )
    }
}

/// The failure of a [`Pattern`] used as a constraint: the subject does not satisfy it.
pub open spec fn constraint_failure(description: Seq<char>) -> FailureView {
    failure_with(FailureKind::Matching, None, Some("does not satisfy the constraint"@), Some(description), None)
}

/// Explains a pattern check that went the wrong way.
pub fn explain_pattern_rejection<T: Render>(actual: &T, description: &str, negative: bool) -> (f: AssertionFailure)
    ensures
        f@ == pattern_rejection(actual, description@, negative),
{
    if negative {
        AssertionFailure::assemble(
            FailureKind::Predicate,
            Some(actual.render()),
            Some(text_of("matches the pattern")),
            None,
            Some(text_of(description)),
        )
    } else {
        AssertionFailure::assemble(
            FailureKind::Predicate,
            Some(actual.render()),
            Some(text_of("does not match the pattern")),
            Some(text_of(description)),
            None,
        )
    }
}

impl<A, F: Fn(&A) -> bool> Expectation<A> for Pattern<F> {
    open spec fn applicable(&self, actual: &A) -> bool {
        call_requires(self.predicate, (actual,))
    }

    open spec fn admits(&self, actual: &A, ok: bool) -> bool {
        call_ensures(self.predicate, (actual,), ok)
    }

    open spec fn rejection(&self, actual: &A) -> FailureView {
        constraint_failure(self.description@)
    }

    fn evaluate(&self, actual: &A) -> (ok: bool) {
        (self.predicate)(actual)
    }

    fn explain(&self, actual: &A) -> (f: AssertionFailure) {
        AssertionFailure::assemble(
            FailureKind::Matching,
            None,
            Some(text_of("does not satisfy the constraint")),
            Some(text_of(self.description)),
            None,
        )
    }
}

impl<P> Pattern<P> {
    /// Explains a pattern used as a constraint where there is no subject to test: the pattern
    /// was expected to match; its test is not run.
    pub fn explain_missing(&self) -> (f: AssertionFailure)
        ensures
            f@ == failure_with(FailureKind::Matching, None, Some("matches the pattern"@), Some(self.description@), None),
    {
        AssertionFailure::assemble(
            FailureKind::Matching,
            None,
            Some(text_of("matches the pattern")),
            Some(text_of(self.description)),
            None,
        )
    }
}

/// Rejects subjects that match the pattern.
pub struct DoesNotMatchPattern<P>(pub Pattern<P>);

impl<P> DoesNotMatchPattern<P> {
    /// Wraps the pattern that must not match.
    pub fn new(pattern: Pattern<P>) -> (m: Self)
        ensures
            m.0 == pattern,
    {
        DoesNotMatchPattern(pattern)
    }
}

impl<P> DoesNotMatchPattern<P> {
    /// Explains the check where there is no subject to test: the pattern stays the unexpected
    /// operand; its test is not run.
    pub fn explain_missing(&self) -> (f: AssertionFailure)
        ensures
            f@ == failure_with(FailureKind::Predicate, None, Some("does not match the pattern"@), None, Some(self.0.description@)),
    {
        AssertionFailure::assemble(
            FailureKind::Predicate,
            None,
            Some(text_of("does not match the pattern")),
            None,
            Some(text_of(self.0.description)),
        )
    }
}

impl<T: Render, P: Fn(&T) -> bool> Expectation<T> for DoesNotMatchPattern<P> {
    open spec fn applicable(&self, actual: &T) -> bool {
        call_requires(self.0.predicate, (actual,))
    }

    open spec fn admits(&self, actual: &T, ok: bool) -> bool {
        call_ensures(self.0.predicate, (actual,), !ok)
    }

    open spec fn rejection(&self, actual: &T) -> FailureView {
        pattern_rejection(actual, self.0.description@, true)
    }

    fn evaluate(&self, actual: &T) -> (ok: bool) {
        !(self.0.predicate)(actual)
    }

    fn explain(&self, actual: &T) -> (f: AssertionFailure) {
        explain_pattern_rejection(actual, self.0.description, true)
    }
}

/// Runs a pattern check on the subject; `negative` asks for the pattern not to match.
pub fn assert_pattern<T: Render, P: FnOnce(&T) -> bool>(this: AssertThat<T>, pattern: Pattern<P>, negative: bool) -> (r: AssertThat<T>)
    requires
        call_requires(pattern.predicate, (&this.subject(),)),
    ensures
        exists|matched: bool|
            call_ensures(pattern.predicate, (&this.subject(),), matched) && this.continues_as(
                &r,
                matched != negative,
                pattern_rejection(&this.subject(), pattern.description@, negative),
            ),
{
    let Pattern { description, predicate } = pattern;
    let matched = predicate(this.actual());
    if matched != negative {
        let ghost before = this;
        let r = this.pass();
        assert(before.continues_as(&r, matched != negative, pattern_rejection(&before.subject(), pattern.description@, negative)));
        r
    } else {
        let f = explain_pattern_rejection(this.actual(), description, negative);
        this.conclude(false, f)
    }
}

/// Assertions that the subject matches a pattern, or does not.
pub trait PatternAssertions<T>: Sized {
    /// The subject the pattern is tested on.
    spec fn pattern_subject(&self) -> T;

    /// Asserts that the subject matches `pattern`.
    fn is_matching<P: FnOnce(&T) -> bool>(self, pattern: Pattern<P>) -> Self
        where
            T: Render,
        requires
            call_requires(pattern.predicate, (&self.pattern_subject(),)),
    ;

    /// Asserts that the subject does not match `pattern`.
    fn is_not_matching<P: FnOnce(&T) -> bool>(self, pattern: Pattern<P>) -> Self
        where
            T: Render,
        requires
            call_requires(pattern.predicate, (&self.pattern_subject(),)),
    ;

    /// Fluent name of [`PatternAssertions::is_matching`].
    fn be_matching<P: FnOnce(&T) -> bool>(self, pattern: Pattern<P>) -> Self
        where
            T: Render,
        requires
            call_requires(pattern.predicate, (&self.pattern_subject(),)),
    ;

    /// Fluent name of [`PatternAssertions::is_not_matching`].
    fn not_be_matching<P: FnOnce(&T) -> bool>(self, pattern: Pattern<P>) -> Self
        where
            T: Render,
        requires
            call_requires(pattern.predicate, (&self.pattern_subject(),)),
    ;
}

impl<T> PatternAssertions<T> for AssertThat<T> {
    open spec fn pattern_subject(&self) -> T {
        self.subject()
    }

    fn is_matching<P: FnOnce(&T) -> bool>(self, pattern: Pattern<P>) -> (r: Self)
        where
            T: Render,
        ensures
            exists|matched: bool|
                call_ensures(pattern.predicate, (&self.subject(),), matched) && self.continues_as(
                    &r,
                    matched,
                    pattern_rejection(&self.subject(), pattern.description@, false),
                ),
    {
        assert_pattern(self, pattern, false)
    }

    fn is_not_matching<P: FnOnce(&T) -> bool>(self, pattern: Pattern<P>) -> (r: Self)
        where
            T: Render,
        ensures
            exists|matched: bool|
                call_ensures(pattern.predicate, (&self.subject(),), matched) && self.continues_as(
                    &r,
                    !matched,
                    pattern_rejection(&self.subject(), pattern.description@, true),
                ),
    {
        assert_pattern(self, pattern, true)
    }

    fn be_matching<P: FnOnce(&T) -> bool>(self, pattern: Pattern<P>) -> (r: Self)
        where
            T: Render,
        ensures
            exists|matched: bool|
                call_ensures(pattern.predicate, (&self.subject(),), matched) && self.continues_as(
                    &r,
                    matched,
                    pattern_rejection(&self.subject(), pattern.description@, false),
                ),
    {
        self.is_matching(pattern)
    }

    fn not_be_matching<P: FnOnce(&T) -> bool>(self, pattern: Pattern<P>) -> (r: Self)
        where
            T: Render,
        ensures
            exists|matched: bool|
                call_ensures(pattern.predicate, (&self.subject(),), matched) && self.continues_as(
                    &r,
                    !matched,
                    pattern_rejection(&self.subject(), pattern.description@, true),
                ),
    {
        self.is_not_matching(pattern)
    }
}

} // verus!
