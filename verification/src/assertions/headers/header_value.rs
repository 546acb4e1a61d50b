//! Assertions on HTTP header values: emptiness, sensitivity and visible-ASCII content.

use vstd::prelude::*;
use http::HeaderValue;
use crate::assert_that::{bumped, AssertThat, Mode, lemma_log_after_each_by_views, nested_failures};
use crate::failure::{AssertionFailure, FailureKind, FailureView, failure_with, failures_view, with_fact};
use crate::render::{Render, decimal_text, render_unsigned};
use crate::text::{push_char, text_of};

verus! {

/// `http::HeaderValue`, declared so that it can stand in signatures; what it holds is reached
/// through the names below.
#[verifier::external_type_specification]
#[verifier::external_body]
pub struct ExHeaderValue(HeaderValue);

/// The bytes a header value holds.
pub uninterp spec fn header_bytes(h: HeaderValue) -> Seq<u8>;

/// Whether a header value is marked sensitive.
pub uninterp spec fn header_sensitive(h: HeaderValue) -> bool;

/// The lower-case hexadecimal digits of `b`, without leading zeros.
pub open spec fn lower_hex(b: u8) -> Seq<char> {
    let digits = "0123456789abcdef"@;
    if b < 16 {
        seq![digits[b as int]]
    } else {
        seq![digits[(b / 16) as int], digits[(b % 16) as int]]
    }
}

/// How `http` writes one byte of a header value with `Debug`: a double quote escaped with a
/// backslash, a byte that is not visible ASCII as `\x` and its hexadecimal digits, any other
/// byte as the ASCII character it is.
pub open spec fn escaped_byte(b: u8) -> Seq<char> {
    if b == 34 {
        seq!['\\', '"']
    } else if !visible_ascii(b) {
        seq!['\\', 'x'] + lower_hex(b)
    } else {
        seq![b as char]
    }
}

/// The bytes written one after another as [`escaped_byte`] says.
pub open spec fn escaped_bytes(bytes: Seq<u8>) -> Seq<char>
    decreases bytes.len(),
{
    if bytes.len() == 0 {
        Seq::empty()
    } else {
        escaped_bytes(bytes.drop_last()) + escaped_byte(bytes.last())
    }
}

/// How `http` writes a header value with `Debug`: `Sensitive` for a sensitive value, else the
/// escaped bytes between double quotes.
pub open spec fn header_debug_text(bytes: Seq<u8>, sensitive: bool) -> Seq<char> {
    if sensitive {
        "Sensitive"@
    } else {
        seq!['"'] + escaped_bytes(bytes) + seq!['"']
    }
}

/// A byte that `http` treats as visible ASCII: a printable character or a tab.
pub open spec fn visible_ascii(b: u8) -> bool {
    (32 <= b && b < 127) || b == 9
}

/// Every byte is visible ASCII.
pub open spec fn all_visible_ascii(bytes: Seq<u8>) -> bool {
    forall|i: int| 0 <= i < bytes.len() ==> visible_ascii(#[trigger] bytes[i])
}

/// The characters of ASCII bytes, one per byte.
pub open spec fn ascii_chars(bytes: Seq<u8>) -> Seq<char> {
    bytes.map_values(|b: u8| b as char)
}

/// Trusted: calls `HeaderValue::len`, the number of bytes the value holds.
#[verifier::external_body]
fn header_len(h: &HeaderValue) -> (n: usize)
    ensures
        n == header_bytes(*h).len(),
{
    h.len()
}

/// Trusted: calls `HeaderValue::is_sensitive`, the value's sensitivity mark.
#[verifier::external_body]
fn header_is_sensitive(h: &HeaderValue) -> (b: bool)
    ensures
        b == header_sensitive(*h),
{
    h.is_sensitive()
}

/// Trusted: calls `HeaderValue::to_str`, which succeeds exactly when every byte is visible
/// ASCII and then yields the bytes as characters.
#[verifier::external_body]
fn header_to_str(h: &HeaderValue) -> (r: Option<&str>)
    ensures
        (r is Some) == all_visible_ascii(header_bytes(*h)),
        r is Some ==> r->0@ == ascii_chars(header_bytes(*h)),
{
    match h.to_str() {
        Ok(s) => Some(s),
        Err(_) => None,
    }
}

/// Trusted: writes the value with `http`'s `Debug`, which gives `Sensitive` for a sensitive
/// value and otherwise its bytes between double quotes, with `"` and bytes that are not visible
/// ASCII escaped, as `header_debug_text` states.
#[verifier::external_body]
fn render_header(h: &HeaderValue) -> (s: String)
    ensures
        s@ == header_debug_text(header_bytes(*h), header_sensitive(*h)),
{
    format!("{:?}", h)
}

impl Render for HeaderValue {
    open spec fn rendered(&self) -> Seq<char> {
        header_debug_text(header_bytes(*self), header_sensitive(*self))
    }

    fn render(&self) -> (s: String) {
        render_header(self)
    }
}

/// A subject that is a header value, owned or borrowed.
pub trait HeaderValueLike {
    /// The header value.
    spec fn header(&self) -> HeaderValue;

    /// Borrows the header value.
    fn as_header(&self) -> (h: &HeaderValue)
        ensures
            *h == self.header(),
    ;
}

impl HeaderValueLike for HeaderValue {
    open spec fn header(&self) -> HeaderValue {
        *self
    }

    fn as_header(&self) -> (h: &HeaderValue) {
        self
    }
}

impl<'a> HeaderValueLike for &'a HeaderValue {
    open spec fn header(&self) -> HeaderValue {
        **self
    }

    fn as_header(&self) -> (h: &HeaderValue) {
        *self
    }
}

/// The note of an emptiness check that failed.
pub open spec fn empty_note() -> Seq<char> {
    "Expected an empty header value."@
}

/// The note of a non-emptiness check that failed.
pub open spec fn non_empty_note() -> Seq<char> {
    "Expected a non-empty header value."@
}

/// The note of a sensitivity check that failed.
pub open spec fn sensitive_note() -> Seq<char> {
    "Expected a sensitive header value. You might have forgotten to call `set_sensitive(true)` on the header value."@
}

/// The note of an insensitivity check that failed.
pub open spec fn insensitive_note() -> Seq<char> {
    "Expected an insensitive header value. You might have forgotten to call `set_sensitive(false)` on the header value."@
}

/// The failure of a header value of `len` bytes that was to be empty.
pub open spec fn not_empty_header_failure(len: int) -> FailureView {
    with_fact(failure_with(FailureKind::Equality, Some(decimal_text(len)), None, Some("0"@), None), None, empty_note())
}

/// The failure of an empty header value that was to hold bytes.
pub open spec fn empty_header_failure() -> FailureView {
    with_fact(
        failure_with(FailureKind::Order, Some("0"@), Some("is not greater than"@), Some("0"@), None),
        None,
        non_empty_note(),
    )
}

/// The failure of a sensitivity check that found the mark `found`.
pub open spec fn sensitivity_failure(found: bool) -> FailureView {
    let (actual, expected, note) = if found {
        ("true"@, "false"@, insensitive_note())
    } else {
        ("false"@, "true"@, sensitive_note())
    };
    with_fact(failure_with(FailureKind::Equality, Some(actual), None, Some(expected), None), None, note)
}

/// The failure of a header value that holds a byte other than visible ASCII.
pub open spec fn not_ascii_failure(h: HeaderValue) -> FailureView {
    failure_with(FailureKind::Other, Some(h.rendered()), Some("is not valid ASCII"@), None, None)
}

fn explain_not_empty(len: usize) -> (f: AssertionFailure)
    ensures
        f@ == not_empty_header_failure(len as int),
{
    AssertionFailure::assemble(FailureKind::Equality, Some(render_unsigned(len as u64)), None, Some(text_of("0")), None)
        .add_fact(None, text_of("Expected an empty header value."))
}

fn explain_empty() -> (f: AssertionFailure)
    ensures
        f@ == empty_header_failure(),
{
    AssertionFailure::assemble(
        FailureKind::Order,
        Some(text_of("0")),
        Some(text_of("is not greater than")),
        Some(text_of("0")),
        None,
    ).add_fact(None, text_of("Expected a non-empty header value."))
}

fn explain_sensitivity(found: bool) -> (f: AssertionFailure)
    ensures
        f@ == sensitivity_failure(found),
{
    if found {
        AssertionFailure::assemble(FailureKind::Equality, Some(text_of("true")), None, Some(text_of("false")), None)
            .add_fact(None, text_of("Expected an insensitive header value. You might have forgotten to call `set_sensitive(false)` on the header value."))
    } else {
        AssertionFailure::assemble(FailureKind::Equality, Some(text_of("false")), None, Some(text_of("true")), None)
            .add_fact(None, text_of("Expected a sensitive header value. You might have forgotten to call `set_sensitive(true)` on the header value."))
    }
}

fn explain_not_ascii(h: &HeaderValue) -> (f: AssertionFailure)
    ensures
        f@ == not_ascii_failure(*h),
{
    AssertionFailure::assemble(FailureKind::Other, Some(h.render()), Some(text_of("is not valid ASCII")), None, None)
}

fn ascii_text(s: &str) -> (t: String)
    ensures
        t@ == s@,
{
    let chars = crate::text::chars_of(s);
    let mut t = String::new();
    let mut i: usize = 0;
    while i < chars.len()
        invariant
            i <= chars.len(),
            chars@ == s@,
            t@ == s@.take(i as int),
        decreases chars.len() - i,
    {
        push_char(&mut t, chars[i]);
        assert(s@.take(i + 1) == s@.take(i as int).push(s@[i as int]));
        i += 1;
    }
    assert(s@.take(chars.len() as int) == s@);
    t
}

/// Assertions on header values.
pub trait HttpHeaderValueAssertions: Sized {
    /// Asserts that the value holds no bytes.
    fn is_empty(self) -> Self;

    /// Asserts that the value holds at least one byte.
    fn is_not_empty(self) -> Self;

    /// Asserts that the value is marked sensitive.
    fn is_sensitive(self) -> Self;

    /// Asserts that the value is not marked sensitive.
    fn is_insensitive(self) -> Self;

    /// Asserts that every byte of the value is visible ASCII.
    fn is_ascii(self) -> Self;

    /// Asserts that every byte of the value is visible ASCII and that its text passes
    /// `assertions`, which get a capture-mode chain over it; what they record is recorded here.
    fn is_ascii_satisfying<A: for<'x> FnOnce(AssertThat<&'x str>) -> AssertThat<&'x str>>(self, assertions: A) -> Self
        requires
            forall|c: AssertThat<&str>| call_requires(assertions, (c,)),
    ;

    /// Fluent name of [`HttpHeaderValueAssertions::is_empty`].
    fn be_empty(self) -> Self;

    /// Fluent name of [`HttpHeaderValueAssertions::is_not_empty`].
    fn not_be_empty(self) -> Self;

    /// Fluent name of [`HttpHeaderValueAssertions::is_sensitive`].
    fn be_sensitive(self) -> Self;

    /// Fluent name of [`HttpHeaderValueAssertions::is_insensitive`].
    fn be_insensitive(self) -> Self;

    /// Fluent name of [`HttpHeaderValueAssertions::is_ascii`].
    fn be_ascii(self) -> Self;

    /// Fluent name of [`HttpHeaderValueAssertions::is_ascii_satisfying`].
    fn be_ascii_satisfying<A: for<'x> FnOnce(AssertThat<&'x str>) -> AssertThat<&'x str>>(self, assertions: A) -> Self
        requires
            forall|c: AssertThat<&str>| call_requires(assertions, (c,)),
    ;
}

impl<H: HeaderValueLike> HttpHeaderValueAssertions for AssertThat<H> {
    fn is_empty(self) -> (r: Self)
        ensures
            self.continues_as(
                &r,
                header_bytes(self.subject().header()).len() == 0,
                not_empty_header_failure(header_bytes(self.subject().header()).len() as int),
            ),
    {
        let n = header_len(self.actual().as_header());
        if n == 0 {
            let ghost before = self;
            let r = self.pass();
            assert(before.continues_as(&r, true, not_empty_header_failure(n as int)));
            r
        } else {
            let f = explain_not_empty(n);
            self.conclude(false, f)
        }
    }

    fn is_not_empty(self) -> (r: Self)
        ensures
            self.continues_as(&r, header_bytes(self.subject().header()).len() > 0, empty_header_failure()),
    {
        let n = header_len(self.actual().as_header());
        if n > 0 {
            let ghost before = self;
            let r = self.pass();
            assert(before.continues_as(&r, true, empty_header_failure()));
            r
        } else {
            let f = explain_empty();
            self.conclude(false, f)
        }
    }

    fn is_sensitive(self) -> (r: Self)
        ensures
            self.continues_as(&r, header_sensitive(self.subject().header()), sensitivity_failure(false)),
    {
        if header_is_sensitive(self.actual().as_header()) {
            let ghost before = self;
            let r = self.pass();
            assert(before.continues_as(&r, true, sensitivity_failure(false)));
            r
        } else {
            let f = explain_sensitivity(false);
            self.conclude(false, f)
        }
    }

    fn is_insensitive(self) -> (r: Self)
        ensures
            self.continues_as(&r, !header_sensitive(self.subject().header()), sensitivity_failure(true)),
    {
        if header_is_sensitive(self.actual().as_header()) {
            let f = explain_sensitivity(true);
            self.conclude(false, f)
        } else {
            let ghost before = self;
            let r = self.pass();
            assert(before.continues_as(&r, true, sensitivity_failure(true)));
            r
        }
    }

    fn is_ascii(self) -> (r: Self)
        ensures
            self.continues_as(
                &r,
                all_visible_ascii(header_bytes(self.subject().header())),
                not_ascii_failure(self.subject().header()),
            ),
    {
        let text = header_to_str(self.actual().as_header());
        if text.is_some() {
            let ghost before = self;
            let r = self.pass();
            assert(before.continues_as(&r, true, not_ascii_failure(before.subject().header())));
            r
        } else {
            let f = explain_not_ascii(self.actual().as_header());
            self.conclude(false, f)
        }
    }

    fn is_ascii_satisfying<A: for<'x> FnOnce(AssertThat<&'x str>) -> AssertThat<&'x str>>(self, assertions: A) -> (r: Self)
        ensures
            !all_visible_ascii(header_bytes(self.subject().header())) ==> self.continues_as(
                &r,
                false,
                not_ascii_failure(self.subject().header()),
            ),
            all_visible_ascii(header_bytes(self.subject().header())) ==> (exists|c: AssertThat<&str>, out: AssertThat<&str>|
                #![trigger call_ensures(assertions, (c,), out)]
                c.subject()@ == ascii_chars(header_bytes(self.subject().header())) && c.mode_of() == Mode::Capture
                    && c.log().len() == 0 && call_ensures(assertions, (c,), out) && r.subject() == self.subject()
                    && r.mode_of() == self.mode_of() && r.expression_text() == self.expression_text() && r.location_text() == self.location_text()
                    && r.detail_texts() == self.detail_texts() && r.log() == self.log_after_each(out.log())
                    && r.assertion_count() == bumped(self.assertion_count())),
    {
        let fs = match header_to_str(self.actual().as_header()) {
            Some(text) => Some(nested_failures(text, assertions)),
            None => None,
        };
        match fs {
            Some(fs) => self.record_all(fs),
            None => {
                let f = explain_not_ascii(self.actual().as_header());
                self.conclude(false, f)
            },
        }
    }

    fn be_empty(self) -> (r: Self)
        ensures
            self.continues_as(
                &r,
                header_bytes(self.subject().header()).len() == 0,
                not_empty_header_failure(header_bytes(self.subject().header()).len() as int),
            ),
    {
        self.is_empty()
    }

    fn not_be_empty(self) -> (r: Self)
        ensures
            self.continues_as(&r, header_bytes(self.subject().header()).len() > 0, empty_header_failure()),
    {
        self.is_not_empty()
    }

    fn be_sensitive(self) -> (r: Self)
        ensures
            self.continues_as(&r, header_sensitive(self.subject().header()), sensitivity_failure(false)),
    {
        self.is_sensitive()
    }

    fn be_insensitive(self) -> (r: Self)
        ensures
            self.continues_as(&r, !header_sensitive(self.subject().header()), sensitivity_failure(true)),
    {
        self.is_insensitive()
    }

    fn be_ascii(self) -> (r: Self)
        ensures
            self.continues_as(
                &r,
                all_visible_ascii(header_bytes(self.subject().header())),
                not_ascii_failure(self.subject().header()),
            ),
    {
        self.is_ascii()
    }

    fn be_ascii_satisfying<A: for<'x> FnOnce(AssertThat<&'x str>) -> AssertThat<&'x str>>(self, assertions: A) -> (r: Self)
        ensures
            !all_visible_ascii(header_bytes(self.subject().header())) ==> self.continues_as(
                &r,
                false,
                not_ascii_failure(self.subject().header()),
            ),
            all_visible_ascii(header_bytes(self.subject().header())) ==> (exists|c: AssertThat<&str>, out: AssertThat<&str>|
                #![trigger call_ensures(assertions, (c,), out)]
                c.subject()@ == ascii_chars(header_bytes(self.subject().header())) && c.mode_of() == Mode::Capture
                    && c.log().len() == 0 && call_ensures(assertions, (c,), out) && r.subject() == self.subject()
                    && r.mode_of() == self.mode_of() && r.expression_text() == self.expression_text() && r.location_text() == self.location_text()
                    && r.detail_texts() == self.detail_texts() && r.log() == self.log_after_each(out.log())
                    && r.assertion_count() == bumped(self.assertion_count())),
    {
        self.is_ascii_satisfying(assertions)
    }
}

/// Extraction of the text of a header value.
pub trait HttpHeaderValueExtractAssertions: Sized {
    /// The bytes of the subject's header value.
    spec fn subject_bytes(&self) -> Seq<u8>;

    /// Continues the chain on the value's text; every byte must be visible ASCII.
    fn get_ascii(self) -> AssertThat<String>
        requires
            all_visible_ascii(self.subject_bytes()),
    ;

    /// Continues the chain on the value's text when every byte is visible ASCII; otherwise
    /// hands the chain back with the failure of [`HttpHeaderValueAssertions::is_ascii`].
    fn try_get_ascii(self) -> Result<AssertThat<String>, Self>;
}

impl<H: HeaderValueLike> HttpHeaderValueExtractAssertions for AssertThat<H> {
    open spec fn subject_bytes(&self) -> Seq<u8> {
        header_bytes(self.subject().header())
    }

    fn get_ascii(self) -> (r: AssertThat<String>)
        ensures
            r.subject()@ == ascii_chars(header_bytes(self.subject().header())),
            r.mode_of() == self.mode_of(),
            r.expression_text() == self.expression_text() && r.location_text() == self.location_text(),
            r.detail_texts() == self.detail_texts(),
            r.log() == self.log(),
            r.assertion_count() == bumped(self.assertion_count()),
    {
        let text = match header_to_str(self.actual().as_header()) {
            Some(s) => ascii_text(s),
            None => vstd::pervasive::unreached(),
        };
        let (_, r) = self.replace_actual(text);
        r.tick()
    }

    fn try_get_ascii(self) -> (r: Result<AssertThat<String>, Self>)
        ensures
            all_visible_ascii(header_bytes(self.subject().header())) ==> (r matches Ok(t)
                && t.subject()@ == ascii_chars(header_bytes(self.subject().header()))
                && t.mode_of() == self.mode_of() && t.expression_text() == self.expression_text() && t.location_text() == self.location_text()
                && t.detail_texts() == self.detail_texts() && t.log() == self.log()
                && t.assertion_count() == bumped(self.assertion_count())),
            !all_visible_ascii(header_bytes(self.subject().header())) ==> (r matches Err(back)
                && self.continues_as(&back, false, not_ascii_failure(self.subject().header()))),
    {
        if header_to_str(self.actual().as_header()).is_some() {
            Ok(self.get_ascii())
        } else {
            let f = explain_not_ascii(self.actual().as_header());
            Err(self.conclude(false, f))
        }
    }
}

} // verus!
