//! Assertions on character subjects.

use vstd::prelude::*;
use crate::assert_that::{AssertThat, Expectation};
use crate::failure::{AssertionFailure, FailureKind, FailureView, failure_with};
use crate::render::Render;
use crate::text::text_of;

verus! {

/// The code point of `c` with ASCII uppercase letters mapped to lowercase.
pub open spec fn ascii_folded(c: char) -> u32 {
    let v = c as u32;
    if 65 <= v && v <= 90 { (v + 32) as u32 } else { v }
}

/// Whether `a` and `b` are equal under ASCII case folding.
pub open spec fn chars_equal_ignoring_ascii_case(a: char, b: char) -> bool {
    ascii_folded(a) == ascii_folded(b)
}

/// Whether `c` is an ASCII lowercase letter, `a` to `z`.
pub open spec fn char_is_ascii_lowercase(c: char) -> bool {
    97 <= (c as u32) && (c as u32) <= 122
}

/// Whether `c` is an ASCII uppercase letter, `A` to `Z`.
pub open spec fn char_is_ascii_uppercase(c: char) -> bool {
    65 <= (c as u32) && (c as u32) <= 90
}

/// Whether `c` has the Unicode `Lowercase` property.
pub uninterp spec fn char_is_lowercase(c: char) -> bool;

/// Whether `c` has the Unicode `Uppercase` property.
pub uninterp spec fn char_is_uppercase(c: char) -> bool;

/// Trusted: calls `char::is_lowercase`, the Unicode `Lowercase` property of `c`,
/// named `char_is_lowercase(c)`.
#[verifier::external_body]
fn has_lowercase_property(c: char) -> (b: bool)
    ensures
        b == char_is_lowercase(c),
{
    c.is_lowercase()
}

/// Trusted: calls `char::is_uppercase`, the Unicode `Uppercase` property of `c`,
/// named `char_is_uppercase(c)`.
#[verifier::external_body]
fn has_uppercase_property(c: char) -> (b: bool)
    ensures
        b == char_is_uppercase(c),
{
    c.is_uppercase()
}

/// ASCII case folding of one character.
pub fn fold_ascii(c: char) -> (v: u32)
    ensures
        v == ascii_folded(c),
{
    let v = c as u32;
    if 65 <= v && v <= 90 { v + 32 } else { v }
}

/// The failure of a character predicate: the rendered subject and the relation that held.
pub open spec fn char_predicate_failure(actual: char, relation: Seq<char>) -> FailureView {
    failure_with(FailureKind::Predicate, Some(actual.rendered()), Some(relation), None, None)
}

fn predicate_failure(actual: char, relation: &str) -> (f: AssertionFailure)
    ensures
        f@ == char_predicate_failure(actual, relation@),
{
    AssertionFailure::assemble(
        FailureKind::Predicate,
        Some(actual.render()),
        Some(text_of(relation)),
        None,
        None,
    )
}

/// Compares characters under ASCII case folding.
pub struct EqualToIgnoringAsciiCase(pub char);

impl EqualToIgnoringAsciiCase {
    /// Owns the expected character.
    pub fn new(expected: char) -> (e: Self)
        ensures
            e.0 == expected,
    {
        EqualToIgnoringAsciiCase(expected)
    }
}

impl Expectation<char> for EqualToIgnoringAsciiCase {
    open spec fn applicable(&self, actual: &char) -> bool {
        true
    }

    open spec fn admits(&self, actual: &char, ok: bool) -> bool {
        ok == chars_equal_ignoring_ascii_case(*actual, self.0)
    }

    open spec fn rejection(&self, actual: &char) -> FailureView {
        failure_with(
            FailureKind::Equality,
            Some(actual.rendered()),
            Some("is not equal to ignoring ASCII case"@),
            Some(self.0.rendered()),
            None,
        )
    }

    fn evaluate(&self, actual: &char) -> (ok: bool) {
        fold_ascii(*actual) == fold_ascii(self.0)
    }

    fn explain(&self, actual: &char) -> (f: AssertionFailure) {
        AssertionFailure::assemble(
            FailureKind::Equality,
            Some(actual.render()),
            Some(text_of("is not equal to ignoring ASCII case")),
            Some(self.0.render()),
            None,
        )
    }
}

/// Checks the Unicode `Lowercase` property.
pub struct IsLowercase;

impl Expectation<char> for IsLowercase {
    open spec fn applicable(&self, actual: &char) -> bool {
        true
    }

    open spec fn admits(&self, actual: &char, ok: bool) -> bool {
        ok == char_is_lowercase(*actual)
    }

    open spec fn rejection(&self, actual: &char) -> FailureView {
        char_predicate_failure(*actual, "is not lowercase"@)
    }

    fn evaluate(&self, actual: &char) -> (ok: bool) {
        has_lowercase_property(*actual)
    }

    fn explain(&self, actual: &char) -> (f: AssertionFailure) {
        predicate_failure(*actual, "is not lowercase")
    }
}

/// Checks the Unicode `Uppercase` property.
pub struct IsUppercase;

impl Expectation<char> for IsUppercase {
    open spec fn applicable(&self, actual: &char) -> bool {
        true
    }

    open spec fn admits(&self, actual: &char, ok: bool) -> bool {
        ok == char_is_uppercase(*actual)
    }

    open spec fn rejection(&self, actual: &char) -> FailureView {
        char_predicate_failure(*actual, "is not uppercase"@)
    }

    fn evaluate(&self, actual: &char) -> (ok: bool) {
        has_uppercase_property(*actual)
    }

    fn explain(&self, actual: &char) -> (f: AssertionFailure) {
        predicate_failure(*actual, "is not uppercase")
    }
}

/// Checks for an ASCII lowercase letter.
pub struct IsAsciiLowercase;

impl Expectation<char> for IsAsciiLowercase {
    open spec fn applicable(&self, actual: &char) -> bool {
        true
    }

    open spec fn admits(&self, actual: &char, ok: bool) -> bool {
        ok == char_is_ascii_lowercase(*actual)
    }

    open spec fn rejection(&self, actual: &char) -> FailureView {
        char_predicate_failure(*actual, "is not an ASCII lowercase letter"@)
    }

    fn evaluate(&self, actual: &char) -> (ok: bool) {
        let v = *actual as u32;
        97 <= v && v <= 122
    }

    fn explain(&self, actual: &char) -> (f: AssertionFailure) {
        predicate_failure(*actual, "is not an ASCII lowercase letter")
    }
}

/// Checks for an ASCII uppercase letter.
pub struct IsAsciiUppercase;

impl Expectation<char> for IsAsciiUppercase {
    open spec fn applicable(&self, actual: &char) -> bool {
        true
    }

    open spec fn admits(&self, actual: &char, ok: bool) -> bool {
        ok == char_is_ascii_uppercase(*actual)
    }

    open spec fn rejection(&self, actual: &char) -> FailureView {
        char_predicate_failure(*actual, "is not an ASCII uppercase letter"@)
    }

    fn evaluate(&self, actual: &char) -> (ok: bool) {
        let v = *actual as u32;
        65 <= v && v <= 90
    }

    fn explain(&self, actual: &char) -> (f: AssertionFailure) {
        predicate_failure(*actual, "is not an ASCII uppercase letter")
    }
}

/// Assertions for character values.
pub trait CharAssertions: Sized {
    /// Asserts that the subject and `expected` are equal under ASCII case folding.
    fn is_equal_to_ignoring_ascii_case(self, expected: char) -> Self;

    /// Asserts that the subject has the Unicode `Lowercase` property.
    fn is_lowercase(self) -> Self;

    /// Asserts that the subject has the Unicode `Uppercase` property.
    fn is_uppercase(self) -> Self;

    /// Asserts that the subject is an ASCII lowercase letter.
    fn is_ascii_lowercase(self) -> Self;

    /// Asserts that the subject is an ASCII uppercase letter.
    fn is_ascii_uppercase(self) -> Self;

    /// Fluent name of [`CharAssertions::is_equal_to_ignoring_ascii_case`].
    fn be_equal_to_ignoring_ascii_case(self, expected: char) -> Self;

    /// Fluent name of [`CharAssertions::is_lowercase`].
    fn be_lowercase(self) -> Self;

    /// Fluent name of [`CharAssertions::is_uppercase`].
    fn be_uppercase(self) -> Self;

    /// Fluent name of [`CharAssertions::is_ascii_lowercase`].
    fn be_ascii_lowercase(self) -> Self;

    /// Fluent name of [`CharAssertions::is_ascii_uppercase`].
    fn be_ascii_uppercase(self) -> Self;
}

impl CharAssertions for AssertThat<char> {
    fn is_equal_to_ignoring_ascii_case(self, expected: char) -> (r: Self)
        ensures
            self.continues_as(
                &r,
                chars_equal_ignoring_ascii_case(self.subject(), expected),
                EqualToIgnoringAsciiCase(expected).rejection(&self.subject()),
            ),
    {
        self.apply_assertion(&EqualToIgnoringAsciiCase::new(expected))
    }

    fn is_lowercase(self) -> (r: Self)
        ensures
            self.continues_as(
                &r,
                char_is_lowercase(self.subject()),
                char_predicate_failure(self.subject(), "is not lowercase"@),
            ),
    {
        self.apply_assertion(&IsLowercase)
    }

    fn is_uppercase(self) -> (r: Self)
        ensures
            self.continues_as(
                &r,
                char_is_uppercase(self.subject()),
                char_predicate_failure(self.subject(), "is not uppercase"@),
            ),
    {
        self.apply_assertion(&IsUppercase)
    }

    fn is_ascii_lowercase(self) -> (r: Self)
        ensures
            self.continues_as(
                &r,
                char_is_ascii_lowercase(self.subject()),
                char_predicate_failure(self.subject(), "is not an ASCII lowercase letter"@),
            ),
    {
        self.apply_assertion(&IsAsciiLowercase)
    }

    fn is_ascii_uppercase(self) -> (r: Self)
        ensures
            self.continues_as(
                &r,
                char_is_ascii_uppercase(self.subject()),
                char_predicate_failure(self.subject(), "is not an ASCII uppercase letter"@),
            ),
    {
        self.apply_assertion(&IsAsciiUppercase)
    }

    fn be_equal_to_ignoring_ascii_case(self, expected: char) -> (r: Self)
        ensures
            self.continues_as(
                &r,
                chars_equal_ignoring_ascii_case(self.subject(), expected),
                EqualToIgnoringAsciiCase(expected).rejection(&self.subject()),
            ),
    {
        self.is_equal_to_ignoring_ascii_case(expected)
    }

    fn be_lowercase(self) -> (r: Self)
        ensures
            self.continues_as(
                &r,
                char_is_lowercase(self.subject()),
                char_predicate_failure(self.subject(), "is not lowercase"@),
            ),
    {
        self.is_lowercase()
    }

    fn be_uppercase(self) -> (r: Self)
        ensures
            self.continues_as(
                &r,
                char_is_uppercase(self.subject()),
                char_predicate_failure(self.subject(), "is not uppercase"@),
            ),
    {
        self.is_uppercase()
    }

    fn be_ascii_lowercase(self) -> (r: Self)
        ensures
            self.continues_as(
                &r,
                char_is_ascii_lowercase(self.subject()),
                char_predicate_failure(self.subject(), "is not an ASCII lowercase letter"@),
            ),
    {
        self.is_ascii_lowercase()
    }

    fn be_ascii_uppercase(self) -> (r: Self)
        ensures
            self.continues_as(
                &r,
                char_is_ascii_uppercase(self.subject()),
                char_predicate_failure(self.subject(), "is not an ASCII uppercase letter"@),
            ),
    {
        self.is_ascii_uppercase()
    }
}

} // verus!
