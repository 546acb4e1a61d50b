//! Assertions on string subjects: blankness, ASCII-case-insensitive equality, substrings,
//! prefixes and suffixes.

use vstd::prelude::*;
use crate::assert_that::{AssertThat, Expectation};
use crate::assertions::character::{ascii_folded, fold_ascii};
use crate::failure::{AssertionFailure, FailureKind, FailureView, failure_with, with_fact};
use crate::render::Render;
use crate::text::{chars_of, text_of};

verus! {

/// A value that can be viewed as a string slice.
pub trait StrLike {
    /// The characters of the string.
    spec fn text(&self) -> Seq<char>;

    /// The string slice.
    fn as_text(&self) -> (s: &str)
        ensures
            s@ == self.text(),
    ;
}

impl<'a> StrLike for &'a str {
    open spec fn text(&self) -> Seq<char> {
        (**self)@
    }

    fn as_text(&self) -> (s: &str) {
        *self
    }
}

impl StrLike for String {
    open spec fn text(&self) -> Seq<char> {
        self@
    }

    fn as_text(&self) -> (s: &str) {
        self.as_str()
    }
}

impl<'a> StrLike for &'a String {
    open spec fn text(&self) -> Seq<char> {
        (**self)@
    }

    fn as_text(&self) -> (s: &str) {
        self.as_str()
    }
}

/// Whether `c` has the Unicode `White_Space` property: tab, line feed, line tabulation, form
/// feed, carriage return, space, next line, no-break space, ogham space mark, the spaces from
/// en quad to hair space, line separator, paragraph separator, narrow no-break space, medium
/// mathematical space and ideographic space.
pub open spec fn char_is_whitespace(c: char) -> bool {
    let v = c as u32;
    ||| 0x09 <= v <= 0x0D
    ||| v == 0x20
    ||| v == 0x85
    ||| v == 0xA0
    ||| v == 0x1680
    ||| 0x2000 <= v <= 0x200A
    ||| v == 0x2028
    ||| v == 0x2029
    ||| v == 0x202F
    ||| v == 0x205F
    ||| v == 0x3000
}

/// Whether `c` has the Unicode `White_Space` property, as `char::is_whitespace` tells.
fn has_whitespace_property(c: char) -> (b: bool)
    ensures
        b == char_is_whitespace(c),
{
    let v = c as u32;
    (0x09 <= v && v <= 0x0D) || v == 0x20 || v == 0x85 || v == 0xA0 || v == 0x1680
        || (0x2000 <= v && v <= 0x200A) || v == 0x2028 || v == 0x2029 || v == 0x202F || v == 0x205F
        || v == 0x3000
}

/// Whether `c` is ASCII whitespace: space, tab, line feed, form feed or carriage return.
pub open spec fn char_is_ascii_whitespace(c: char) -> bool {
    c == ' ' || c == '\t' || c == '\n' || c == '\x0C' || c == '\r'
}

/// Empty or only Unicode whitespace.
pub open spec fn text_is_blank(s: Seq<char>) -> bool {
    forall|i: int| 0 <= i < s.len() ==> char_is_whitespace(#[trigger] s[i])
}

/// Empty or only ASCII whitespace.
pub open spec fn text_is_blank_ascii(s: Seq<char>) -> bool {
    forall|i: int| 0 <= i < s.len() ==> char_is_ascii_whitespace(#[trigger] s[i])
}

/// Equal lengths, and equal characters position by position under ASCII case folding.
pub open spec fn text_equal_ignoring_ascii_case(a: Seq<char>, b: Seq<char>) -> bool {
    &&& a.len() == b.len()
    &&& forall|i: int| 0 <= i < a.len() ==> #[trigger] ascii_folded(a[i]) == ascii_folded(b[i])
}

/// `e` occurs in `a` at position `i`.
pub open spec fn occurs_at(a: Seq<char>, e: Seq<char>, i: int) -> bool {
    0 <= i && i + e.len() <= a.len() && a.subrange(i, i + e.len()) == e
}

/// `e` occurs somewhere in `a` (the empty string occurs everywhere).
pub open spec fn text_contains(a: Seq<char>, e: Seq<char>) -> bool {
    exists|i: int| #[trigger] occurs_at(a, e, i)
}

/// `a` starts with `e`.
pub open spec fn text_starts_with(a: Seq<char>, e: Seq<char>) -> bool {
    occurs_at(a, e, 0)
}

/// `a` ends with `e`.
pub open spec fn text_ends_with(a: Seq<char>, e: Seq<char>) -> bool {
    occurs_at(a, e, a.len() - e.len())
}

fn all_whitespace(v: &Vec<char>) -> (b: bool)
    ensures
        b == text_is_blank(v@),
{
    let mut i: usize = 0;
    while i < v.len()
        invariant
            i <= v.len(),
            forall|k: int| 0 <= k < i ==> char_is_whitespace(#[trigger] v@[k]),
        decreases v.len() - i,
    {
        if !has_whitespace_property(v[i]) {
            return false;
        }
        i = i + 1;
    }
    true
}

fn all_ascii_whitespace(v: &Vec<char>) -> (b: bool)
    ensures
        b == text_is_blank_ascii(v@),
{
    let mut i: usize = 0;
    while i < v.len()
        invariant
            i <= v.len(),
            forall|k: int| 0 <= k < i ==> char_is_ascii_whitespace(#[trigger] v@[k]),
        decreases v.len() - i,
    {
        let c = v[i];
        if !(c == ' ' || c == '\t' || c == '\n' || c == '\x0C' || c == '\r') {
            return false;
        }
        i = i + 1;
    }
    true
}

fn equal_ignoring_ascii_case(a: &Vec<char>, b: &Vec<char>) -> (r: bool)
    ensures
        r == text_equal_ignoring_ascii_case(a@, b@),
{
    if a.len() != b.len() {
        return false;
    }
    let mut i: usize = 0;
    while i < a.len()
        invariant
            i <= a.len(),
            a.len() == b.len(),
            forall|k: int| 0 <= k < i ==> #[trigger] ascii_folded(a@[k]) == ascii_folded(b@[k]),
        decreases a.len() - i,
    {
        if fold_ascii(a[i]) != fold_ascii(b[i]) {
            return false;
        }
        i = i + 1;
    }
    true
}

/// Whether `e` occurs in `a` at position `at`.
fn matches_at(a: &Vec<char>, e: &Vec<char>, at: usize) -> (r: bool)
    requires
        at + e.len() <= a.len(),
    ensures
        r == occurs_at(a@, e@, at as int),
{
    let mut k: usize = 0;
    while k < e.len()
        invariant
            k <= e.len(),
            at + e.len() <= a.len(),
            forall|j: int| 0 <= j < k ==> a@[at + j] == e@[j],
        decreases e.len() - k,
    {
        if a[at + k] != e[k] {
            assert(a@.subrange(at as int, at + e.len())[k as int] != e@[k as int]);
            return false;
        }
        k = k + 1;
    }
    assert(a@.subrange(at as int, at + e.len()) =~= e@);
    true
}

fn find_occurrence(a: &Vec<char>, e: &Vec<char>) -> (r: bool)
    ensures
        r == text_contains(a@, e@),
{
    if e.len() > a.len() {
        assert forall|i: int| !#[trigger] occurs_at(a@, e@, i) by {}
        return false;
    }
    if e.len() == 0 {
        assert(a@.subrange(0, 0) =~= e@);
        assert(occurs_at(a@, e@, 0));
        return true;
    }
    let last = a.len() - e.len();
    let mut i: usize = 0;
    while i <= last
        invariant
            last == a.len() - e.len(),
            0 < e.len() <= a.len(),
            i <= last + 1,
            forall|j: int| 0 <= j < i ==> !#[trigger] occurs_at(a@, e@, j),
        decreases last + 1 - i,
    {
        if matches_at(a, e, i) {
            return true;
        }
        i = i + 1;
    }
    assert forall|j: int| !#[trigger] occurs_at(a@, e@, j) by {
        if 0 <= j && j < i {
        }
    }
    false
}

fn has_prefix(a: &Vec<char>, e: &Vec<char>) -> (r: bool)
    ensures
        r == text_starts_with(a@, e@),
{
    if e.len() > a.len() {
        return false;
    }
    matches_at(a, e, 0)
}

fn has_suffix(a: &Vec<char>, e: &Vec<char>) -> (r: bool)
    ensures
        r == text_ends_with(a@, e@),
{
    if e.len() > a.len() {
        return false;
    }
    matches_at(a, e, a.len() - e.len())
}

/// A failure showing the rendered subject and the relation that held.
pub open spec fn text_failure<S: Render>(kind: FailureKind, actual: &S, relation: Seq<char>) -> FailureView {
    failure_with(kind, Some(actual.rendered()), Some(relation), None, None)
}

/// A failure showing the subject, the relation that held and the expected string.
pub open spec fn text_expected_failure<S: Render>(actual: &S, relation: Seq<char>, expected: Seq<char>) -> FailureView {
    failure_with(
        FailureKind::Membership,
        Some(actual.rendered()),
        Some(relation),
        Some(crate::render::str_debug_text(expected)),
        None,
    )
}

/// A failure showing the subject, the relation that held and the unexpected string.
pub open spec fn text_unexpected_failure<S: Render>(actual: &S, relation: Seq<char>, unexpected: Seq<char>) -> FailureView {
    failure_with(
        FailureKind::Membership,
        Some(actual.rendered()),
        Some(relation),
        None,
        Some(crate::render::str_debug_text(unexpected)),
    )
}

/// The failure of `is_equal_to_ignoring_ascii_case` on strings.
pub open spec fn ignoring_case_failure<S: Render>(actual: &S, expected: Seq<char>) -> FailureView {
    with_fact(
        failure_with(
            FailureKind::Equality,
            Some(actual.rendered()),
            None,
            Some(crate::render::str_debug_text(expected)),
            None,
        ),
        None,
        "Values differ even when ignoring ASCII case."@,
    )
}

fn explain_text<S: Render>(kind: FailureKind, actual: &S, relation: &str) -> (f: AssertionFailure)
    ensures
        f@ == text_failure(kind, actual, relation@),
{
    AssertionFailure::assemble(kind, Some(actual.render()), Some(text_of(relation)), None, None)
}

fn explain_expected<S: Render>(actual: &S, relation: &str, expected: &str) -> (f: AssertionFailure)
    ensures
        f@ == text_expected_failure(actual, relation@, expected@),
{
    AssertionFailure::assemble(
        FailureKind::Membership,
        Some(actual.render()),
        Some(text_of(relation)),
        Some(crate::render::render_str_debug(expected)),
        None,
    )
}

fn explain_unexpected<S: Render>(actual: &S, relation: &str, unexpected: &str) -> (f: AssertionFailure)
    ensures
        f@ == text_unexpected_failure(actual, relation@, unexpected@),
{
    AssertionFailure::assemble(
        FailureKind::Membership,
        Some(actual.render()),
        Some(text_of(relation)),
        None,
        Some(crate::render::render_str_debug(unexpected)),
    )
}

/// Checks that a string is empty or contains only Unicode whitespace.
pub struct IsBlank;

impl<S: StrLike + Render> Expectation<S> for IsBlank {
    open spec fn applicable(&self, actual: &S) -> bool {
        true
    }

    open spec fn admits(&self, actual: &S, ok: bool) -> bool {
        ok == text_is_blank(actual.text())
    }

    open spec fn rejection(&self, actual: &S) -> FailureView {
        text_failure(FailureKind::Other, actual, "is not blank"@)
    }

    fn evaluate(&self, actual: &S) -> (ok: bool) {
        all_whitespace(&chars_of(actual.as_text()))
    }

    fn explain(&self, actual: &S) -> (f: AssertionFailure) {
        explain_text(FailureKind::Other, actual, "is not blank")
    }
}

/// Checks that a string contains a character without the Unicode whitespace property.
pub struct IsNotBlank;

impl<S: StrLike + Render> Expectation<S> for IsNotBlank {
    open spec fn applicable(&self, actual: &S) -> bool {
        true
    }

    open spec fn admits(&self, actual: &S, ok: bool) -> bool {
        ok == !text_is_blank(actual.text())
    }

    open spec fn rejection(&self, actual: &S) -> FailureView {
        text_failure(FailureKind::Other, actual, "is unexpectedly blank"@)
    }

    fn evaluate(&self, actual: &S) -> (ok: bool) {
        !all_whitespace(&chars_of(actual.as_text()))
    }

    fn explain(&self, actual: &S) -> (f: AssertionFailure) {
        explain_text(FailureKind::Other, actual, "is unexpectedly blank")
    }
}

/// Checks that a string is empty or contains only ASCII whitespace.
pub struct IsBlankAscii;

impl<S: StrLike + Render> Expectation<S> for IsBlankAscii {
    open spec fn applicable(&self, actual: &S) -> bool {
        true
    }

    open spec fn admits(&self, actual: &S, ok: bool) -> bool {
        ok == text_is_blank_ascii(actual.text())
    }

    open spec fn rejection(&self, actual: &S) -> FailureView {
        text_failure(FailureKind::Other, actual, "is not ASCII blank"@)
    }

    fn evaluate(&self, actual: &S) -> (ok: bool) {
        all_ascii_whitespace(&chars_of(actual.as_text()))
    }

    fn explain(&self, actual: &S) -> (f: AssertionFailure) {
        explain_text(FailureKind::Other, actual, "is not ASCII blank")
    }
}

/// Compares strings under ASCII case folding.
pub struct EqualToIgnoringAsciiCase<E>(pub E);

impl<E> EqualToIgnoringAsciiCase<E> {
    /// Owns the expected operand.
    pub fn new(expected: E) -> (m: Self)
        ensures
            m.0 == expected,
    {
        EqualToIgnoringAsciiCase(expected)
    }
}

impl<S: StrLike + Render, E: StrLike> Expectation<S> for EqualToIgnoringAsciiCase<E> {
    open spec fn applicable(&self, actual: &S) -> bool {
        true
    }

    open spec fn admits(&self, actual: &S, ok: bool) -> bool {
        ok == text_equal_ignoring_ascii_case(actual.text(), self.0.text())
    }

    open spec fn rejection(&self, actual: &S) -> FailureView {
        ignoring_case_failure(actual, self.0.text())
    }

    fn evaluate(&self, actual: &S) -> (ok: bool) {
        equal_ignoring_ascii_case(&chars_of(actual.as_text()), &chars_of(self.0.as_text()))
    }

    fn explain(&self, actual: &S) -> (f: AssertionFailure) {
        let f = AssertionFailure::assemble(
            FailureKind::Equality,
            Some(actual.render()),
            None,
            Some(crate::render::render_str_debug(self.0.as_text())),
            None,
        );
        f.add_fact(None, text_of("Values differ even when ignoring ASCII case."))
    }
}

/// Requires an expected substring.
pub struct Contains<E>(pub E);

impl<E> Contains<E> {
    /// Owns the expected substring.
    pub fn new(expected: E) -> (m: Self)
        ensures
            m.0 == expected,
    {
        Contains(expected)
    }
}

impl<S: StrLike + Render, E: StrLike> Expectation<S> for Contains<E> {
    open spec fn applicable(&self, actual: &S) -> bool {
        true
    }

    open spec fn admits(&self, actual: &S, ok: bool) -> bool {
        ok == text_contains(actual.text(), self.0.text())
    }

    open spec fn rejection(&self, actual: &S) -> FailureView {
        text_expected_failure(actual, "does not contain"@, self.0.text())
    }

    fn evaluate(&self, actual: &S) -> (ok: bool) {
        find_occurrence(&chars_of(actual.as_text()), &chars_of(self.0.as_text()))
    }

    fn explain(&self, actual: &S) -> (f: AssertionFailure) {
        explain_expected(actual, "does not contain", self.0.as_text())
    }
}

/// Rejects strings containing an unexpected substring.
pub struct DoesNotContain<E>(pub E);

impl<E> DoesNotContain<E> {
    /// Owns the unexpected substring.
    pub fn new(unexpected: E) -> (m: Self)
        ensures
            m.0 == unexpected,
    {
        DoesNotContain(unexpected)
    }
}

impl<S: StrLike + Render, E: StrLike> Expectation<S> for DoesNotContain<E> {
    open spec fn applicable(&self, actual: &S) -> bool {
        true
    }

    open spec fn admits(&self, actual: &S, ok: bool) -> bool {
        ok == !text_contains(actual.text(), self.0.text())
    }

    open spec fn rejection(&self, actual: &S) -> FailureView {
        text_unexpected_failure(actual, "contains"@, self.0.text())
    }

    fn evaluate(&self, actual: &S) -> (ok: bool) {
        !find_occurrence(&chars_of(actual.as_text()), &chars_of(self.0.as_text()))
    }

    fn explain(&self, actual: &S) -> (f: AssertionFailure) {
        explain_unexpected(actual, "contains", self.0.as_text())
    }
}

/// Requires an expected prefix.
pub struct StartsWith<E>(pub E);

/// Matches a string prefix.
pub fn starts_with<E: StrLike>(expected: E) -> (m: StartsWith<E>)
    ensures
        m.0 == expected,
{
    StartsWith::new(expected)
}

impl<E> StartsWith<E> {
    /// Owns the expected prefix.
    pub fn new(expected: E) -> (m: Self)
        ensures
            m.0 == expected,
    {
        StartsWith(expected)
    }
}

impl<S: StrLike + Render, E: StrLike> Expectation<S> for StartsWith<E> {
    open spec fn applicable(&self, actual: &S) -> bool {
        true
    }

    open spec fn admits(&self, actual: &S, ok: bool) -> bool {
        ok == text_starts_with(actual.text(), self.0.text())
    }

    open spec fn rejection(&self, actual: &S) -> FailureView {
        text_expected_failure(actual, "does not start with"@, self.0.text())
    }

    fn evaluate(&self, actual: &S) -> (ok: bool) {
        has_prefix(&chars_of(actual.as_text()), &chars_of(self.0.as_text()))
    }

    fn explain(&self, actual: &S) -> (f: AssertionFailure) {
        explain_expected(actual, "does not start with", self.0.as_text())
    }
}

/// Rejects strings starting with an unexpected prefix.
pub struct DoesNotStartWith<E>(pub E);

impl<E> DoesNotStartWith<E> {
    /// Owns the unexpected prefix.
    pub fn new(unexpected: E) -> (m: Self)
        ensures
            m.0 == unexpected,
    {
        DoesNotStartWith(unexpected)
    }
}

impl<S: StrLike + Render, E: StrLike> Expectation<S> for DoesNotStartWith<E> {
    open spec fn applicable(&self, actual: &S) -> bool {
        true
    }

    open spec fn admits(&self, actual: &S, ok: bool) -> bool {
        ok == !text_starts_with(actual.text(), self.0.text())
    }

    open spec fn rejection(&self, actual: &S) -> FailureView {
        text_unexpected_failure(actual, "starts with"@, self.0.text())
    }

    fn evaluate(&self, actual: &S) -> (ok: bool) {
        !has_prefix(&chars_of(actual.as_text()), &chars_of(self.0.as_text()))
    }

    fn explain(&self, actual: &S) -> (f: AssertionFailure) {
        explain_unexpected(actual, "starts with", self.0.as_text())
    }
}

/// Requires an expected suffix.
pub struct EndsWith<E>(pub E);

impl<E> EndsWith<E> {
    /// Owns the expected suffix.
    pub fn new(expected: E) -> (m: Self)
        ensures
            m.0 == expected,
    {
        EndsWith(expected)
    }
}

impl<S: StrLike + Render, E: StrLike> Expectation<S> for EndsWith<E> {
    open spec fn applicable(&self, actual: &S) -> bool {
        true
    }

    open spec fn admits(&self, actual: &S, ok: bool) -> bool {
        ok == text_ends_with(actual.text(), self.0.text())
    }

    open spec fn rejection(&self, actual: &S) -> FailureView {
        text_expected_failure(actual, "does not end with"@, self.0.text())
    }

    fn evaluate(&self, actual: &S) -> (ok: bool) {
        has_suffix(&chars_of(actual.as_text()), &chars_of(self.0.as_text()))
    }

    fn explain(&self, actual: &S) -> (f: AssertionFailure) {
        explain_expected(actual, "does not end with", self.0.as_text())
    }
}

/// Rejects strings ending with an unexpected suffix.
pub struct DoesNotEndWith<E>(pub E);

impl<E> DoesNotEndWith<E> {
    /// Owns the unexpected suffix.
    pub fn new(unexpected: E) -> (m: Self)
        ensures
            m.0 == unexpected,
    {
        DoesNotEndWith(unexpected)
    }
}

impl<S: StrLike + Render, E: StrLike> Expectation<S> for DoesNotEndWith<E> {
    open spec fn applicable(&self, actual: &S) -> bool {
        true
    }

    open spec fn admits(&self, actual: &S, ok: bool) -> bool {
        ok == !text_ends_with(actual.text(), self.0.text())
    }

    open spec fn rejection(&self, actual: &S) -> FailureView {
        text_unexpected_failure(actual, "ends with"@, self.0.text())
    }

    fn evaluate(&self, actual: &S) -> (ok: bool) {
        !has_suffix(&chars_of(actual.as_text()), &chars_of(self.0.as_text()))
    }

    fn explain(&self, actual: &S) -> (f: AssertionFailure) {
        explain_unexpected(actual, "ends with", self.0.as_text())
    }
}

/// Assertions for string subjects (`&str`, `String`, `&String`).
pub trait StrAssertions: Sized {
    /// Asserts that the subject is empty or only holds Unicode whitespace.
    fn is_blank(self) -> Self;

    /// Asserts that the subject holds a character that is not Unicode whitespace.
    fn is_not_blank(self) -> Self;

    /// Asserts that the subject is empty or only holds ASCII whitespace.
    fn is_blank_ascii(self) -> Self;

    /// Asserts that the subject equals `expected` under ASCII case folding.
    fn is_equal_to_ignoring_ascii_case<E: StrLike>(self, expected: E) -> Self;

    /// Asserts that `expected` occurs in the subject.
    fn contains<E: StrLike>(self, expected: E) -> Self;

    /// Asserts that `unexpected` does not occur in the subject.
    fn does_not_contain<E: StrLike>(self, unexpected: E) -> Self;

    /// Asserts that the subject starts with `expected`.
    fn starts_with<E: StrLike>(self, expected: E) -> Self;

    /// Asserts that the subject does not start with `unexpected`.
    fn does_not_start_with<E: StrLike>(self, unexpected: E) -> Self;

    /// Asserts that the subject ends with `expected`.
    fn ends_with<E: StrLike>(self, expected: E) -> Self;

    /// Asserts that the subject does not end with `unexpected`.
    fn does_not_end_with<E: StrLike>(self, unexpected: E) -> Self;

    /// Fluent name of [`StrAssertions::is_blank`].
    fn be_blank(self) -> Self;

    /// Fluent name of [`StrAssertions::is_not_blank`].
    fn not_be_blank(self) -> Self;

    /// Fluent name of [`StrAssertions::is_blank_ascii`].
    fn be_blank_ascii(self) -> Self;

    /// Fluent name of [`StrAssertions::is_equal_to_ignoring_ascii_case`].
    fn be_equal_to_ignoring_ascii_case<E: StrLike>(self, expected: E) -> Self;

    /// Fluent name of [`StrAssertions::contains`].
    fn contain<E: StrLike>(self, expected: E) -> Self;

    /// Fluent name of [`StrAssertions::does_not_contain`].
    fn not_contain<E: StrLike>(self, unexpected: E) -> Self;

    /// Fluent name of [`StrAssertions::starts_with`].
    fn start_with<E: StrLike>(self, expected: E) -> Self;

    /// Fluent name of [`StrAssertions::does_not_start_with`].
    fn not_start_with<E: StrLike>(self, unexpected: E) -> Self;

    /// Fluent name of [`StrAssertions::ends_with`].
    fn end_with<E: StrLike>(self, expected: E) -> Self;

    /// Fluent name of [`StrAssertions::does_not_end_with`].
    fn not_end_with<E: StrLike>(self, unexpected: E) -> Self;
}

impl<S: StrLike + Render> StrAssertions for AssertThat<S> {
    fn is_blank(self) -> (r: Self)
        ensures
            self.continues_as(
                &r,
                text_is_blank(self.subject().text()),
                text_failure(FailureKind::Other, &self.subject(), "is not blank"@),
            ),
    {
        self.apply_assertion(&IsBlank)
    }

    fn is_not_blank(self) -> (r: Self)
        ensures
            self.continues_as(
                &r,
                !text_is_blank(self.subject().text()),
                text_failure(FailureKind::Other, &self.subject(), "is unexpectedly blank"@),
            ),
    {
        self.apply_assertion(&IsNotBlank)
    }

    fn is_blank_ascii(self) -> (r: Self)
        ensures
            self.continues_as(
                &r,
                text_is_blank_ascii(self.subject().text()),
                text_failure(FailureKind::Other, &self.subject(), "is not ASCII blank"@),
            ),
    {
        self.apply_assertion(&IsBlankAscii)
    }

    fn is_equal_to_ignoring_ascii_case<E: StrLike>(self, expected: E) -> (r: Self)
        ensures
            self.continues_as(
                &r,
                text_equal_ignoring_ascii_case(self.subject().text(), expected.text()),
                ignoring_case_failure(&self.subject(), expected.text()),
            ),
    {
        self.apply_assertion(&EqualToIgnoringAsciiCase::new(expected))
    }

    fn contains<E: StrLike>(self, expected: E) -> (r: Self)
        ensures
            self.continues_as(
                &r,
                text_contains(self.subject().text(), expected.text()),
                text_expected_failure(&self.subject(), "does not contain"@, expected.text()),
            ),
    {
        self.apply_assertion(&Contains::new(expected))
    }

    fn does_not_contain<E: StrLike>(self, unexpected: E) -> (r: Self)
        ensures
            self.continues_as(
                &r,
                !text_contains(self.subject().text(), unexpected.text()),
                text_unexpected_failure(&self.subject(), "contains"@, unexpected.text()),
            ),
    {
        self.apply_assertion(&DoesNotContain::new(unexpected))
    }

    fn starts_with<E: StrLike>(self, expected: E) -> (r: Self)
        ensures
            self.continues_as(
                &r,
                text_starts_with(self.subject().text(), expected.text()),
                text_expected_failure(&self.subject(), "does not start with"@, expected.text()),
            ),
    {
        self.apply_assertion(&StartsWith::new(expected))
    }

    fn does_not_start_with<E: StrLike>(self, unexpected: E) -> (r: Self)
        ensures
            self.continues_as(
                &r,
                !text_starts_with(self.subject().text(), unexpected.text()),
                text_unexpected_failure(&self.subject(), "starts with"@, unexpected.text()),
            ),
    {
        self.apply_assertion(&DoesNotStartWith::new(unexpected))
    }

    fn ends_with<E: StrLike>(self, expected: E) -> (r: Self)
        ensures
            self.continues_as(
                &r,
                text_ends_with(self.subject().text(), expected.text()),
                text_expected_failure(&self.subject(), "does not end with"@, expected.text()),
            ),
    {
        self.apply_assertion(&EndsWith::new(expected))
    }

    fn does_not_end_with<E: StrLike>(self, unexpected: E) -> (r: Self)
        ensures
            self.continues_as(
                &r,
                !text_ends_with(self.subject().text(), unexpected.text()),
                text_unexpected_failure(&self.subject(), "ends with"@, unexpected.text()),
            ),
    {
        self.apply_assertion(&DoesNotEndWith::new(unexpected))
    }

    fn be_blank(self) -> (r: Self)
        ensures
            self.continues_as(
                &r,
                text_is_blank(self.subject().text()),
                text_failure(FailureKind::Other, &self.subject(), "is not blank"@),
            ),
    {
        self.is_blank()
    }

    fn not_be_blank(self) -> (r: Self)
        ensures
            self.continues_as(
                &r,
                !text_is_blank(self.subject().text()),
                text_failure(FailureKind::Other, &self.subject(), "is unexpectedly blank"@),
            ),
    {
        self.is_not_blank()
    }

    fn be_blank_ascii(self) -> (r: Self)
        ensures
            self.continues_as(
                &r,
                text_is_blank_ascii(self.subject().text()),
                text_failure(FailureKind::Other, &self.subject(), "is not ASCII blank"@),
            ),
    {
        self.is_blank_ascii()
    }

    fn be_equal_to_ignoring_ascii_case<E: StrLike>(self, expected: E) -> (r: Self)
        ensures
            self.continues_as(
                &r,
                text_equal_ignoring_ascii_case(self.subject().text(), expected.text()),
                ignoring_case_failure(&self.subject(), expected.text()),
            ),
    {
        self.is_equal_to_ignoring_ascii_case(expected)
    }

    fn contain<E: StrLike>(self, expected: E) -> (r: Self)
        ensures
            self.continues_as(
                &r,
                text_contains(self.subject().text(), expected.text()),
                text_expected_failure(&self.subject(), "does not contain"@, expected.text()),
            ),
    {
        self.contains(expected)
    }

    fn not_contain<E: StrLike>(self, unexpected: E) -> (r: Self)
        ensures
            self.continues_as(
                &r,
                !text_contains(self.subject().text(), unexpected.text()),
                text_unexpected_failure(&self.subject(), "contains"@, unexpected.text()),
            ),
    {
        self.does_not_contain(unexpected)
    }

    fn start_with<E: StrLike>(self, expected: E) -> (r: Self)
        ensures
            self.continues_as(
                &r,
                text_starts_with(self.subject().text(), expected.text()),
                text_expected_failure(&self.subject(), "does not start with"@, expected.text()),
            ),
    {
        self.starts_with(expected)
    }

    fn not_start_with<E: StrLike>(self, unexpected: E) -> (r: Self)
        ensures
            self.continues_as(
                &r,
                !text_starts_with(self.subject().text(), unexpected.text()),
                text_unexpected_failure(&self.subject(), "starts with"@, unexpected.text()),
            ),
    {
        self.does_not_start_with(unexpected)
    }

    fn end_with<E: StrLike>(self, expected: E) -> (r: Self)
        ensures
            self.continues_as(
                &r,
                text_ends_with(self.subject().text(), expected.text()),
                text_expected_failure(&self.subject(), "does not end with"@, expected.text()),
            ),
    {
        self.ends_with(expected)
    }

    fn not_end_with<E: StrLike>(self, unexpected: E) -> (r: Self)
        ensures
            self.continues_as(
                &r,
                !text_ends_with(self.subject().text(), unexpected.text()),
                text_unexpected_failure(&self.subject(), "ends with"@, unexpected.text()),
            ),
    {
        self.does_not_end_with(unexpected)
    }
}

} // verus!
