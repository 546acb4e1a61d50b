//! Assertions on string slices, with the blank checks reported in the words of a whole
//! sentence.

use vstd::prelude::*;
use crate::assert_that::{AssertThat, Expectation};
use crate::assertions::string::{
    Contains, DoesNotContain, DoesNotEndWith, DoesNotStartWith, EndsWith, IsBlank, IsBlankAscii,
    StartsWith, StrLike, text_contains, text_ends_with, text_is_blank, text_is_blank_ascii,
    text_starts_with,
};
use crate::failure::{AssertionFailure, FailureKind, FailureView, failure_with};
use crate::render::{Render, str_debug_text};
use crate::text::text_of;

verus! {

/// What a string slice that is not blank is reported to contain, and what was expected of it.
pub open spec fn non_blank_relation() -> Seq<char> {
    "contains non-whitespace characters.\n\nExpected it to be empty or only containing whitespace."@
}

/// The failure of a blank check on the slice `actual`.
pub open spec fn slice_blank_failure(actual: Seq<char>) -> FailureView {
    failure_with(FailureKind::Other, Some(str_debug_text(actual)), Some(non_blank_relation()), None, None)
}

/// The failure of a substring check on the slice `actual`: the relation that held instead, and
/// the expected or unexpected text, each shown in quotes.
pub open spec fn slice_failure(
    actual: Seq<char>,
    relation: Seq<char>,
    expected: Option<Seq<char>>,
    unexpected: Option<Seq<char>>,
) -> FailureView {
    failure_with(
        FailureKind::Membership,
        Some(str_debug_text(actual)),
        Some(relation),
        match expected {
            Some(e) => Some(str_debug_text(e)),
            None => None,
        },
        match unexpected {
            Some(u) => Some(str_debug_text(u)),
            None => None,
        },
    )
}

fn explain_non_blank(actual: &str) -> (f: AssertionFailure)
    ensures
        f@ == slice_blank_failure(actual@),
{
    AssertionFailure::assemble(
        FailureKind::Other,
        Some(actual.render()),
        Some(text_of("contains non-whitespace characters.\n\nExpected it to be empty or only containing whitespace.")),
        None,
        None,
    )
}

/// Assertions on `&str` subjects.
pub trait StrSliceAssertions: Sized {
    /// The subject's characters.
    spec fn slice_text(&self) -> Seq<char>;

    /// `next` is this chain after a check that reached `ok` and, on rejection, recorded `f`.
    spec fn moves_to(&self, next: &Self, ok: bool, f: FailureView) -> bool;

    /// Asserts that the subject is empty or holds only Unicode whitespace.
    fn is_blank(self) -> (r: Self)
        ensures
            self.moves_to(&r, text_is_blank(self.slice_text()), slice_blank_failure(self.slice_text())),
    ;

    /// Asserts that the subject is empty or holds only ASCII whitespace.
    fn is_blank_ascii(self) -> (r: Self)
        ensures
            self.moves_to(&r, text_is_blank_ascii(self.slice_text()), slice_blank_failure(self.slice_text())),
    ;

    /// Asserts that the subject contains `expected`.
    fn contains<E: StrLike>(self, expected: E) -> (r: Self)
        ensures
            self.moves_to(&r, text_contains(self.slice_text(), expected.text()), slice_failure(self.slice_text(), "does not contain"@, Some(expected.text()), None)),
    ;

    /// Asserts that the subject does not contain `unexpected`.
    fn does_not_contain<E: StrLike>(self, unexpected: E) -> (r: Self)
        ensures
            self.moves_to(&r, !text_contains(self.slice_text(), unexpected.text()), slice_failure(self.slice_text(), "contains"@, None, Some(unexpected.text()))),
    ;

    /// Asserts that the subject starts with `expected`.
    fn starts_with<E: StrLike>(self, expected: E) -> (r: Self)
        ensures
            self.moves_to(&r, text_starts_with(self.slice_text(), expected.text()), slice_failure(self.slice_text(), "does not start with"@, Some(expected.text()), None)),
    ;

    /// Asserts that the subject does not start with `unexpected`.
    fn does_not_start_with<E: StrLike>(self, unexpected: E) -> (r: Self)
        ensures
            self.moves_to(&r, !text_starts_with(self.slice_text(), unexpected.text()), slice_failure(self.slice_text(), "starts with"@, None, Some(unexpected.text()))),
    ;

    /// Asserts that the subject ends with `expected`.
    fn ends_with<E: StrLike>(self, expected: E) -> (r: Self)
        ensures
            self.moves_to(&r, text_ends_with(self.slice_text(), expected.text()), slice_failure(self.slice_text(), "does not end with"@, Some(expected.text()), None)),
    ;

    /// Asserts that the subject does not end with `unexpected`.
    fn does_not_end_with<E: StrLike>(self, unexpected: E) -> (r: Self)
        ensures
            self.moves_to(&r, !text_ends_with(self.slice_text(), unexpected.text()), slice_failure(self.slice_text(), "ends with"@, None, Some(unexpected.text()))),
    ;

    /// Fluent name of [`StrSliceAssertions::is_blank`].
    fn be_blank(self) -> (r: Self)
        ensures
            self.moves_to(&r, text_is_blank(self.slice_text()), slice_blank_failure(self.slice_text())),
    ;

    /// Fluent name of [`StrSliceAssertions::is_blank_ascii`].
    fn be_blank_ascii(self) -> (r: Self)
        ensures
            self.moves_to(&r, text_is_blank_ascii(self.slice_text()), slice_blank_failure(self.slice_text())),
    ;

    /// Fluent name of [`StrSliceAssertions::contains`].
    fn contain<E: StrLike>(self, expected: E) -> (r: Self)
        ensures
            self.moves_to(&r, text_contains(self.slice_text(), expected.text()), slice_failure(self.slice_text(), "does not contain"@, Some(expected.text()), None)),
    ;

    /// Fluent name of [`StrSliceAssertions::does_not_contain`].
    fn not_contain<E: StrLike>(self, unexpected: E) -> (r: Self)
        ensures
            self.moves_to(&r, !text_contains(self.slice_text(), unexpected.text()), slice_failure(self.slice_text(), "contains"@, None, Some(unexpected.text()))),
    ;

    /// Fluent name of [`StrSliceAssertions::starts_with`].
    fn start_with<E: StrLike>(self, expected: E) -> (r: Self)
        ensures
            self.moves_to(&r, text_starts_with(self.slice_text(), expected.text()), slice_failure(self.slice_text(), "does not start with"@, Some(expected.text()), None)),
    ;

    /// Fluent name of [`StrSliceAssertions::does_not_start_with`].
    fn not_start_with<E: StrLike>(self, unexpected: E) -> (r: Self)
        ensures
            self.moves_to(&r, !text_starts_with(self.slice_text(), unexpected.text()), slice_failure(self.slice_text(), "starts with"@, None, Some(unexpected.text()))),
    ;

    /// Fluent name of [`StrSliceAssertions::ends_with`].
    fn end_with<E: StrLike>(self, expected: E) -> (r: Self)
        ensures
            self.moves_to(&r, text_ends_with(self.slice_text(), expected.text()), slice_failure(self.slice_text(), "does not end with"@, Some(expected.text()), None)),
    ;

    /// Fluent name of [`StrSliceAssertions::does_not_end_with`].
    fn not_end_with<E: StrLike>(self, unexpected: E) -> (r: Self)
        ensures
            self.moves_to(&r, !text_ends_with(self.slice_text(), unexpected.text()), slice_failure(self.slice_text(), "ends with"@, None, Some(unexpected.text()))),
    ;
}

impl<'a> StrSliceAssertions for AssertThat<&'a str> {
    open spec fn slice_text(&self) -> Seq<char> {
        self.subject()@
    }

    open spec fn moves_to(&self, next: &Self, ok: bool, f: FailureView) -> bool {
        self.continues_as(next, ok, f)
    }

    fn is_blank(self) -> (r: Self) {
        let ok = <IsBlank as Expectation<&'a str>>::evaluate(&IsBlank, self.actual());
        if ok {
            let ghost before = self;
            let r = self.pass();
            assert(before.continues_as(&r, true, slice_blank_failure(before.subject()@)));
            r
        } else {
            let f = explain_non_blank(*self.actual());
            self.conclude(false, f)
        }
    }

    fn is_blank_ascii(self) -> (r: Self) {
        let ok = <IsBlankAscii as Expectation<&'a str>>::evaluate(&IsBlankAscii, self.actual());
        if ok {
            let ghost before = self;
            let r = self.pass();
            assert(before.continues_as(&r, true, slice_blank_failure(before.subject()@)));
            r
        } else {
            let f = explain_non_blank(*self.actual());
            self.conclude(false, f)
        }
    }

    fn contains<E: StrLike>(self, expected: E) -> (r: Self) {
        self.apply_assertion(&Contains::new(expected))
    }

    fn does_not_contain<E: StrLike>(self, unexpected: E) -> (r: Self) {
        self.apply_assertion(&DoesNotContain::new(unexpected))
    }

    fn starts_with<E: StrLike>(self, expected: E) -> (r: Self) {
        self.apply_assertion(&StartsWith::new(expected))
    }

    fn does_not_start_with<E: StrLike>(self, unexpected: E) -> (r: Self) {
        self.apply_assertion(&DoesNotStartWith::new(unexpected))
    }

    fn ends_with<E: StrLike>(self, expected: E) -> (r: Self) {
        self.apply_assertion(&EndsWith::new(expected))
    }

    fn does_not_end_with<E: StrLike>(self, unexpected: E) -> (r: Self) {
        self.apply_assertion(&DoesNotEndWith::new(unexpected))
    }

    fn be_blank(self) -> (r: Self) {
        StrSliceAssertions::is_blank(self)
    }

    fn be_blank_ascii(self) -> (r: Self) {
        StrSliceAssertions::is_blank_ascii(self)
    }

    fn contain<E: StrLike>(self, expected: E) -> (r: Self) {
        StrSliceAssertions::contains(self, expected)
    }

    fn not_contain<E: StrLike>(self, unexpected: E) -> (r: Self) {
        StrSliceAssertions::does_not_contain(self, unexpected)
    }

    fn start_with<E: StrLike>(self, expected: E) -> (r: Self) {
        StrSliceAssertions::starts_with(self, expected)
    }

    fn not_start_with<E: StrLike>(self, unexpected: E) -> (r: Self) {
        StrSliceAssertions::does_not_start_with(self, unexpected)
    }

    fn end_with<E: StrLike>(self, expected: E) -> (r: Self) {
        StrSliceAssertions::ends_with(self, expected)
    }

    fn not_end_with<E: StrLike>(self, unexpected: E) -> (r: Self) {
        StrSliceAssertions::does_not_end_with(self, unexpected)
    }
}

} // verus!
