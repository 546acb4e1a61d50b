//! Lengths of subjects, and the assertions on them.

use vstd::prelude::*;
use crate::assert_that::{AssertThat, Expectation};
use crate::failure::{AssertionFailure, FailureKind, FailureView, failure_with, with_fact};
use crate::render::{Render, decimal_text, render_unsigned};
use crate::text::{push_text, text_of};
use core::ops::{Range, RangeInclusive};
use std::collections::VecDeque;
use vstd::std_specs::cmp::{PartialOrdIs, PartialOrdSpec};

verus! {

/// The number of bytes that `c` takes in UTF-8.
pub open spec fn utf8_width(c: char) -> int {
    let v = c as u32;
    if v < 0x80 {
        1
    } else if v < 0x800 {
        2
    } else if v < 0x10000 {
        3
    } else {
        4
    }
}

/// The number of bytes that the characters `s` take in UTF-8.
pub open spec fn utf8_len(s: Seq<char>) -> int
    decreases s.len(),
{
    if s.len() == 0 {
        0
    } else {
        utf8_len(s.drop_last()) + utf8_width(s.last())
    }
}

/// Trusted: calls `str::len`, the length of `s` in bytes, which is the sum of the UTF-8
/// widths of its characters.
#[verifier::external_body]
fn str_byte_len(s: &str) -> (n: usize)
    ensures
        n == utf8_len(s@),
{
    s.len()
}

/// Trusted: calls `RangeInclusive::start`, the range's lower bound.
#[verifier::external_body]
pub(crate) fn inclusive_start<T>(r: &RangeInclusive<T>) -> (s: &T)
    ensures
        *s == r@.start,
{
    r.start()
}

/// Trusted: calls `RangeInclusive::end`, the range's upper bound.
#[verifier::external_body]
fn inclusive_end<T>(r: &RangeInclusive<T>) -> (e: &T)
    ensures
        *e == r@.end,
{
    r.end()
}

/// Trusted: calls `RangeInclusive::is_empty`: an inclusive range is empty when it was run to
/// its end or when its start does not lie at or below its end.
#[verifier::external_body]
fn inclusive_is_empty<T: PartialOrd>(r: &RangeInclusive<T>) -> (b: bool)
    ensures
        T::obeys_partial_cmp_spec() ==> b == (r@.exhausted || !r@.start.is_le(&r@.end)),
{
    r.is_empty()
}

/// The short name of a type, shown beside a rendered value where a report asks for it:
/// `Vec`, `String`, `str`, `[i32]`, `[i32; 3]`. References show the name of what they point to.
pub trait TypeLabel {
    /// The label. Every type of this library states it; the default, empty, serves types
    /// implemented outside verified code, which then show no label.
    closed spec fn type_label() -> Seq<char> {
        Seq::empty()
    }

    /// Produces [`TypeLabel::type_label`].
    fn label() -> (s: String)
        ensures
            s@ == Self::type_label(),
    ;
}

/// The rendered value, led by its type's label and a space where the label is not empty.
pub open spec fn labelled<T: Render + TypeLabel>(actual: &T) -> Seq<char> {
    if T::type_label().len() == 0 {
        actual.rendered()
    } else {
        T::type_label() + " "@ + actual.rendered()
    }
}

/// Renders `actual` as [`labelled`] says.
pub fn render_labelled<T: Render + TypeLabel>(actual: &T) -> (s: String)
    ensures
        s@ == labelled(actual),
{
    let mut s = T::label();
    if crate::text::chars_of(s.as_str()).len() == 0 {
        return actual.render();
    }
    push_text(&mut s, " ");
    let r = actual.render();
    push_text(&mut s, r.as_str());
    s
}

impl TypeLabel for u8 {
    open spec fn type_label() -> Seq<char> {
        "u8"@
    }

    fn label() -> (s: String) {
        text_of("u8")
    }
}

impl TypeLabel for u16 {
    open spec fn type_label() -> Seq<char> {
        "u16"@
    }

    fn label() -> (s: String) {
        text_of("u16")
    }
}

impl TypeLabel for u32 {
    open spec fn type_label() -> Seq<char> {
        "u32"@
    }

    fn label() -> (s: String) {
        text_of("u32")
    }
}

impl TypeLabel for u64 {
    open spec fn type_label() -> Seq<char> {
        "u64"@
    }

    fn label() -> (s: String) {
        text_of("u64")
    }
}

impl TypeLabel for usize {
    open spec fn type_label() -> Seq<char> {
        "usize"@
    }

    fn label() -> (s: String) {
        text_of("usize")
    }
}

impl TypeLabel for i8 {
    open spec fn type_label() -> Seq<char> {
        "i8"@
    }

    fn label() -> (s: String) {
        text_of("i8")
    }
}

impl TypeLabel for i16 {
    open spec fn type_label() -> Seq<char> {
        "i16"@
    }

    fn label() -> (s: String) {
        text_of("i16")
    }
}

impl TypeLabel for i32 {
    open spec fn type_label() -> Seq<char> {
        "i32"@
    }

    fn label() -> (s: String) {
        text_of("i32")
    }
}

impl TypeLabel for i64 {
    open spec fn type_label() -> Seq<char> {
        "i64"@
    }

    fn label() -> (s: String) {
        text_of("i64")
    }
}

impl TypeLabel for isize {
    open spec fn type_label() -> Seq<char> {
        "isize"@
    }

    fn label() -> (s: String) {
        text_of("isize")
    }
}

impl TypeLabel for bool {
    open spec fn type_label() -> Seq<char> {
        "bool"@
    }

    fn label() -> (s: String) {
        text_of("bool")
    }
}

impl TypeLabel for char {
    open spec fn type_label() -> Seq<char> {
        "char"@
    }

    fn label() -> (s: String) {
        text_of("char")
    }
}

impl TypeLabel for str {
    open spec fn type_label() -> Seq<char> {
        "str"@
    }

    fn label() -> (s: String) {
        text_of("str")
    }
}

impl TypeLabel for String {
    open spec fn type_label() -> Seq<char> {
        "String"@
    }

    fn label() -> (s: String) {
        text_of("String")
    }
}

impl TypeLabel for () {
    open spec fn type_label() -> Seq<char> {
        "()"@
    }

    fn label() -> (s: String) {
        text_of("()")
    }
}

impl<T: ?Sized> TypeLabel for Box<T> {
    open spec fn type_label() -> Seq<char> {
        "Box"@
    }

    fn label() -> (s: String) {
        text_of("Box")
    }
}

impl<T> TypeLabel for Vec<T> {
    open spec fn type_label() -> Seq<char> {
        "Vec"@
    }

    fn label() -> (s: String) {
        text_of("Vec")
    }
}

impl<T> TypeLabel for VecDeque<T> {
    open spec fn type_label() -> Seq<char> {
        "VecDeque"@
    }

    fn label() -> (s: String) {
        text_of("VecDeque")
    }
}

impl<T> TypeLabel for Option<T> {
    open spec fn type_label() -> Seq<char> {
        "Option"@
    }

    fn label() -> (s: String) {
        text_of("Option")
    }
}

impl<B> TypeLabel for Range<B> {
    open spec fn type_label() -> Seq<char> {
        "Range"@
    }

    fn label() -> (s: String) {
        text_of("Range")
    }
}

impl<B> TypeLabel for RangeInclusive<B> {
    open spec fn type_label() -> Seq<char> {
        "RangeInclusive"@
    }

    fn label() -> (s: String) {
        text_of("RangeInclusive")
    }
}

impl<'a, T: TypeLabel + ?Sized> TypeLabel for &'a T {
    open spec fn type_label() -> Seq<char> {
        T::type_label()
    }

    fn label() -> (s: String) {
        T::label()
    }
}

impl<T: TypeLabel> TypeLabel for [T] {
    open spec fn type_label() -> Seq<char> {
        "["@ + T::type_label() + "]"@
    }

    fn label() -> (s: String) {
        let mut s = text_of("[");
        let e = T::label();
        push_text(&mut s, e.as_str());
        push_text(&mut s, "]");
        s
    }
}

impl<T: TypeLabel, const N: usize> TypeLabel for [T; N] {
    open spec fn type_label() -> Seq<char> {
        "["@ + T::type_label() + "; "@ + decimal_text(N as int) + "]"@
    }

    fn label() -> (s: String) {
        let mut s = text_of("[");
        let e = T::label();
        push_text(&mut s, e.as_str());
        push_text(&mut s, "; ");
        let n = render_unsigned(N as u64);
        push_text(&mut s, n.as_str());
        push_text(&mut s, "]");
        s
    }
}

/// A value with a finite number of elements (or bytes, for strings).
pub trait HasLength {
    /// The number of elements. Every type of this library states it; the default serves
    /// types implemented outside verified code, whose `length` nothing checks.
    closed spec fn element_count(&self) -> int {
        0
    }

    /// The number of elements, which must fit in `usize`.
    fn length(&self) -> (n: usize)
        requires
            self.element_count() <= usize::MAX,
        ensures
            n == self.element_count(),
    ;

    /// Whether there are no elements.
    fn is_empty(&self) -> (b: bool)
        ensures
            b == (self.element_count() == 0),
    ;

    /// Whether there is an element.
    fn is_not_empty(&self) -> (b: bool)
        ensures
            b == (self.element_count() != 0),
    ;
}

impl<'a> HasLength for &'a str {
    open spec fn element_count(&self) -> int {
        utf8_len((**self)@)
    }

    fn length(&self) -> (n: usize) {
        str_byte_len(*self)
    }

    fn is_empty(&self) -> (b: bool) {
        proof {
            lemma_utf8_len_zero((**self)@);
        }
        str_byte_len(*self) == 0
    }

    fn is_not_empty(&self) -> (b: bool) {
        !HasLength::is_empty(self)
    }
}

impl HasLength for String {
    open spec fn element_count(&self) -> int {
        utf8_len(self@)
    }

    fn length(&self) -> (n: usize) {
        str_byte_len(self.as_str())
    }

    fn is_empty(&self) -> (b: bool) {
        proof {
            lemma_utf8_len_zero(self@);
        }
        str_byte_len(self.as_str()) == 0
    }

    fn is_not_empty(&self) -> (b: bool) {
        !HasLength::is_empty(self)
    }
}

impl<'a> HasLength for &'a String {
    open spec fn element_count(&self) -> int {
        utf8_len((**self)@)
    }

    fn length(&self) -> (n: usize) {
        str_byte_len(self.as_str())
    }

    fn is_empty(&self) -> (b: bool) {
        proof {
            lemma_utf8_len_zero((**self)@);
        }
        str_byte_len(self.as_str()) == 0
    }

    fn is_not_empty(&self) -> (b: bool) {
        !HasLength::is_empty(self)
    }
}

impl HasLength for Box<str> {
    open spec fn element_count(&self) -> int {
        utf8_len((**self)@)
    }

    fn length(&self) -> (n: usize) {
        str_byte_len(&**self)
    }

    fn is_empty(&self) -> (b: bool) {
        proof {
            lemma_utf8_len_zero((**self)@);
        }
        str_byte_len(&**self) == 0
    }

    fn is_not_empty(&self) -> (b: bool) {
        !HasLength::is_empty(self)
    }
}

/// The UTF-8 length is zero exactly for the empty string.
pub proof fn lemma_utf8_len_zero(s: Seq<char>)
    ensures
        (utf8_len(s) == 0) == (s.len() == 0),
        utf8_len(s) >= 0,
    decreases s.len(),
{
    if s.len() > 0 {
        lemma_utf8_len_zero(s.drop_last());
    }
}

impl<'a, T> HasLength for &'a [T] {
    open spec fn element_count(&self) -> int {
        (**self)@.len() as int
    }

    fn length(&self) -> (n: usize) {
        self.len()
    }

    fn is_empty(&self) -> (b: bool) {
        self.len() == 0
    }

    fn is_not_empty(&self) -> (b: bool) {
        self.len() != 0
    }
}

impl<T, const N: usize> HasLength for [T; N] {
    open spec fn element_count(&self) -> int {
        N as int
    }

    fn length(&self) -> (n: usize) {
        N
    }

    fn is_empty(&self) -> (b: bool) {
        N == 0
    }

    fn is_not_empty(&self) -> (b: bool) {
        N != 0
    }
}

impl<'a, T, const N: usize> HasLength for &'a [T; N] {
    open spec fn element_count(&self) -> int {
        N as int
    }

    fn length(&self) -> (n: usize) {
        N
    }

    fn is_empty(&self) -> (b: bool) {
        N == 0
    }

    fn is_not_empty(&self) -> (b: bool) {
        N != 0
    }
}

impl<T> HasLength for Vec<T> {
    open spec fn element_count(&self) -> int {
        self@.len() as int
    }

    fn length(&self) -> (n: usize) {
        self.len()
    }

    fn is_empty(&self) -> (b: bool) {
        self.len() == 0
    }

    fn is_not_empty(&self) -> (b: bool) {
        self.len() != 0
    }
}

impl<'a, T> HasLength for &'a Vec<T> {
    open spec fn element_count(&self) -> int {
        (**self)@.len() as int
    }

    fn length(&self) -> (n: usize) {
        self.len()
    }

    fn is_empty(&self) -> (b: bool) {
        self.len() == 0
    }

    fn is_not_empty(&self) -> (b: bool) {
        self.len() != 0
    }
}

impl<T> HasLength for VecDeque<T> {
    open spec fn element_count(&self) -> int {
        self@.len() as int
    }

    fn length(&self) -> (n: usize) {
        self.len()
    }

    fn is_empty(&self) -> (b: bool) {
        self.len() == 0
    }

    fn is_not_empty(&self) -> (b: bool) {
        self.len() != 0
    }
}

impl<'a, T> HasLength for &'a VecDeque<T> {
    open spec fn element_count(&self) -> int {
        (**self)@.len() as int
    }

    fn length(&self) -> (n: usize) {
        (**self).len()
    }

    fn is_empty(&self) -> (b: bool) {
        (**self).len() == 0
    }

    fn is_not_empty(&self) -> (b: bool) {
        (**self).len() != 0
    }
}

/// Converts a range's mathematical length to `usize`; the length must fit.
pub fn range_length(difference: u64) -> (n: usize)
    requires
        difference <= usize::MAX,
    ensures
        n == difference,
{
    difference as usize
}

/// Length of a non-empty inclusive range, `difference + 1`; that sum must fit in `usize`.
pub fn inclusive_range_length(difference: u64) -> (n: usize)
    requires
        difference + 1 <= usize::MAX,
    ensures
        n == difference + 1,
{
    range_length(difference) + 1
}

impl HasLength for Range<u8> {
    open spec fn element_count(&self) -> int {
        if self.start < self.end {
            self.end - self.start
        } else {
            0
        }
    }

    fn length(&self) -> (n: usize) {
        if self.start < self.end {
            range_length((self.end - self.start) as u64)
        } else {
            0
        }
    }

    fn is_empty(&self) -> (b: bool) {
        !(self.start < self.end)
    }

    fn is_not_empty(&self) -> (b: bool) {
        self.start < self.end
    }
}

impl HasLength for RangeInclusive<u8> {
    open spec fn element_count(&self) -> int {
        if self@.exhausted || self@.end < self@.start {
            0
        } else {
            self@.end - self@.start + 1
        }
    }

    fn length(&self) -> (n: usize) {
        if inclusive_is_empty(self) {
            0
        } else {
            let s = inclusive_start(self);
            let e = inclusive_end(self);
            inclusive_range_length((*e - *s) as u64)
        }
    }

    fn is_empty(&self) -> (b: bool) {
        inclusive_is_empty(self)
    }

    fn is_not_empty(&self) -> (b: bool) {
        !inclusive_is_empty(self)
    }
}

impl HasLength for Range<u16> {
    open spec fn element_count(&self) -> int {
        if self.start < self.end {
            self.end - self.start
        } else {
            0
        }
    }

    fn length(&self) -> (n: usize) {
        if self.start < self.end {
            range_length((self.end - self.start) as u64)
        } else {
            0
        }
    }

    fn is_empty(&self) -> (b: bool) {
        !(self.start < self.end)
    }

    fn is_not_empty(&self) -> (b: bool) {
        self.start < self.end
    }
}

impl HasLength for RangeInclusive<u16> {
    open spec fn element_count(&self) -> int {
        if self@.exhausted || self@.end < self@.start {
            0
        } else {
            self@.end - self@.start + 1
        }
    }

    fn length(&self) -> (n: usize) {
        if inclusive_is_empty(self) {
            0
        } else {
            let s = inclusive_start(self);
            let e = inclusive_end(self);
            inclusive_range_length((*e - *s) as u64)
        }
    }

    fn is_empty(&self) -> (b: bool) {
        inclusive_is_empty(self)
    }

    fn is_not_empty(&self) -> (b: bool) {
        !inclusive_is_empty(self)
    }
}

impl HasLength for Range<u32> {
    open spec fn element_count(&self) -> int {
        if self.start < self.end {
            self.end - self.start
        } else {
            0
        }
    }

    fn length(&self) -> (n: usize) {
        if self.start < self.end {
            range_length((self.end - self.start) as u64)
        } else {
            0
        }
    }

    fn is_empty(&self) -> (b: bool) {
        !(self.start < self.end)
    }

    fn is_not_empty(&self) -> (b: bool) {
        self.start < self.end
    }
}

impl HasLength for RangeInclusive<u32> {
    open spec fn element_count(&self) -> int {
        if self@.exhausted || self@.end < self@.start {
            0
        } else {
            self@.end - self@.start + 1
        }
    }

    fn length(&self) -> (n: usize) {
        if inclusive_is_empty(self) {
            0
        } else {
            let s = inclusive_start(self);
            let e = inclusive_end(self);
            inclusive_range_length((*e - *s) as u64)
        }
    }

    fn is_empty(&self) -> (b: bool) {
        inclusive_is_empty(self)
    }

    fn is_not_empty(&self) -> (b: bool) {
        !inclusive_is_empty(self)
    }
}

impl HasLength for Range<u64> {
    open spec fn element_count(&self) -> int {
        if self.start < self.end {
            self.end - self.start
        } else {
            0
        }
    }

    fn length(&self) -> (n: usize) {
        if self.start < self.end {
            range_length((self.end - self.start) as u64)
        } else {
            0
        }
    }

    fn is_empty(&self) -> (b: bool) {
        !(self.start < self.end)
    }

    fn is_not_empty(&self) -> (b: bool) {
        self.start < self.end
    }
}

impl HasLength for RangeInclusive<u64> {
    open spec fn element_count(&self) -> int {
        if self@.exhausted || self@.end < self@.start {
            0
        } else {
            self@.end - self@.start + 1
        }
    }

    fn length(&self) -> (n: usize) {
        if inclusive_is_empty(self) {
            0
        } else {
            let s = inclusive_start(self);
            let e = inclusive_end(self);
            inclusive_range_length((*e - *s) as u64)
        }
    }

    fn is_empty(&self) -> (b: bool) {
        inclusive_is_empty(self)
    }

    fn is_not_empty(&self) -> (b: bool) {
        !inclusive_is_empty(self)
    }
}

impl HasLength for Range<usize> {
    open spec fn element_count(&self) -> int {
        if self.start < self.end {
            self.end - self.start
        } else {
            0
        }
    }

    fn length(&self) -> (n: usize) {
        if self.start < self.end {
            range_length((self.end - self.start) as u64)
        } else {
            0
        }
    }

    fn is_empty(&self) -> (b: bool) {
        !(self.start < self.end)
    }

    fn is_not_empty(&self) -> (b: bool) {
        self.start < self.end
    }
}

impl HasLength for RangeInclusive<usize> {
    open spec fn element_count(&self) -> int {
        if self@.exhausted || self@.end < self@.start {
            0
        } else {
            self@.end - self@.start + 1
        }
    }

    fn length(&self) -> (n: usize) {
        if inclusive_is_empty(self) {
            0
        } else {
            let s = inclusive_start(self);
            let e = inclusive_end(self);
            inclusive_range_length((*e - *s) as u64)
        }
    }

    fn is_empty(&self) -> (b: bool) {
        inclusive_is_empty(self)
    }

    fn is_not_empty(&self) -> (b: bool) {
        !inclusive_is_empty(self)
    }
}

impl HasLength for Range<i8> {
    open spec fn element_count(&self) -> int {
        if self.start < self.end {
            self.end - self.start
        } else {
            0
        }
    }

    fn length(&self) -> (n: usize) {
        if self.start < self.end {
            range_length((self.end as i128 - self.start as i128) as u64)
        } else {
            0
        }
    }

    fn is_empty(&self) -> (b: bool) {
        !(self.start < self.end)
    }

    fn is_not_empty(&self) -> (b: bool) {
        self.start < self.end
    }
}

impl HasLength for RangeInclusive<i8> {
    open spec fn element_count(&self) -> int {
        if self@.exhausted || self@.end < self@.start {
            0
        } else {
            self@.end - self@.start + 1
        }
    }

    fn length(&self) -> (n: usize) {
        if inclusive_is_empty(self) {
            0
        } else {
            let s = inclusive_start(self);
            let e = inclusive_end(self);
            inclusive_range_length((*e as i128 - *s as i128) as u64)
        }
    }

    fn is_empty(&self) -> (b: bool) {
        inclusive_is_empty(self)
    }

    fn is_not_empty(&self) -> (b: bool) {
        !inclusive_is_empty(self)
    }
}

impl HasLength for Range<i16> {
    open spec fn element_count(&self) -> int {
        if self.start < self.end {
            self.end - self.start
        } else {
            0
        }
    }

    fn length(&self) -> (n: usize) {
        if self.start < self.end {
            range_length((self.end as i128 - self.start as i128) as u64)
        } else {
            0
        }
    }

    fn is_empty(&self) -> (b: bool) {
        !(self.start < self.end)
    }

    fn is_not_empty(&self) -> (b: bool) {
        self.start < self.end
    }
}

impl HasLength for RangeInclusive<i16> {
    open spec fn element_count(&self) -> int {
        if self@.exhausted || self@.end < self@.start {
            0
        } else {
            self@.end - self@.start + 1
        }
    }

    fn length(&self) -> (n: usize) {
        if inclusive_is_empty(self) {
            0
        } else {
            let s = inclusive_start(self);
            let e = inclusive_end(self);
            inclusive_range_length((*e as i128 - *s as i128) as u64)
        }
    }

    fn is_empty(&self) -> (b: bool) {
        inclusive_is_empty(self)
    }

    fn is_not_empty(&self) -> (b: bool) {
        !inclusive_is_empty(self)
    }
}

impl HasLength for Range<i32> {
    open spec fn element_count(&self) -> int {
        if self.start < self.end {
            self.end - self.start
        } else {
            0
        }
    }

    fn length(&self) -> (n: usize) {
        if self.start < self.end {
            range_length((self.end as i128 - self.start as i128) as u64)
        } else {
            0
        }
    }

    fn is_empty(&self) -> (b: bool) {
        !(self.start < self.end)
    }

    fn is_not_empty(&self) -> (b: bool) {
        self.start < self.end
    }
}

impl HasLength for RangeInclusive<i32> {
    open spec fn element_count(&self) -> int {
        if self@.exhausted || self@.end < self@.start {
            0
        } else {
            self@.end - self@.start + 1
        }
    }

    fn length(&self) -> (n: usize) {
        if inclusive_is_empty(self) {
            0
        } else {
            let s = inclusive_start(self);
            let e = inclusive_end(self);
            inclusive_range_length((*e as i128 - *s as i128) as u64)
        }
    }

    fn is_empty(&self) -> (b: bool) {
        inclusive_is_empty(self)
    }

    fn is_not_empty(&self) -> (b: bool) {
        !inclusive_is_empty(self)
    }
}

impl HasLength for Range<i64> {
    open spec fn element_count(&self) -> int {
        if self.start < self.end {
            self.end - self.start
        } else {
            0
        }
    }

    fn length(&self) -> (n: usize) {
        if self.start < self.end {
            range_length((self.end as i128 - self.start as i128) as u64)
        } else {
            0
        }
    }

    fn is_empty(&self) -> (b: bool) {
        !(self.start < self.end)
    }

    fn is_not_empty(&self) -> (b: bool) {
        self.start < self.end
    }
}

impl HasLength for RangeInclusive<i64> {
    open spec fn element_count(&self) -> int {
        if self@.exhausted || self@.end < self@.start {
            0
        } else {
            self@.end - self@.start + 1
        }
    }

    fn length(&self) -> (n: usize) {
        if inclusive_is_empty(self) {
            0
        } else {
            let s = inclusive_start(self);
            let e = inclusive_end(self);
            inclusive_range_length((*e as i128 - *s as i128) as u64)
        }
    }

    fn is_empty(&self) -> (b: bool) {
        inclusive_is_empty(self)
    }

    fn is_not_empty(&self) -> (b: bool) {
        !inclusive_is_empty(self)
    }
}

/// The failure of `is_empty`: the subject has elements.
pub open spec fn not_empty_failure<T: Render + TypeLabel>(actual: &T) -> FailureView {
    failure_with(FailureKind::Length, Some(labelled(actual)), Some("is not empty"@), None, None)
}

/// The failure of `is_not_empty`: the subject has no elements.
pub open spec fn empty_failure<T: Render + TypeLabel>(actual: &T) -> FailureView {
    failure_with(FailureKind::Length, Some(labelled(actual)), Some("is unexpectedly empty"@), None, None)
}

/// The failure of `has_length`: the expected length, and the actual one as a labelled fact.
pub open spec fn length_failure<T: Render + TypeLabel>(actual: &T, expected: int, actual_len: int) -> FailureView {
    with_fact(
        failure_with(
            FailureKind::Length,
            Some(labelled(actual)),
            Some("does not have the expected length"@),
            Some(decimal_text(expected)),
            None,
        ),
        Some("Actual length"@),
        decimal_text(actual_len),
    )
}

/// Assertions on the length of a subject.
pub trait LengthAssertions: Sized {
    /// The number of elements of the subject.
    spec fn subject_length(&self) -> int;

    /// Asserts that the subject has no elements.
    fn is_empty(self) -> Self;

    /// Asserts that the subject has an element.
    fn is_not_empty(self) -> Self;

    /// Asserts that the subject has exactly `expected` elements; its length must fit in `usize`.
    fn has_length(self, expected: usize) -> Self
        requires
            self.subject_length() <= usize::MAX,
    ;

    /// Fluent name of [`LengthAssertions::is_empty`].
    fn be_empty(self) -> Self;

    /// Fluent name of [`LengthAssertions::is_not_empty`].
    fn not_be_empty(self) -> Self;

    /// Fluent name of [`LengthAssertions::has_length`].
    fn have_length(self, expected: usize) -> Self
        requires
            self.subject_length() <= usize::MAX,
    ;
}

impl<T: HasLength + Render + TypeLabel> LengthAssertions for AssertThat<T> {
    open spec fn subject_length(&self) -> int {
        self.subject().element_count()
    }

    fn is_empty(self) -> (r: Self)
        ensures
            self.continues_as(&r, self.subject().element_count() == 0, not_empty_failure(&self.subject())),
    {
        if HasLength::is_empty(self.actual()) {
            self.pass()
        } else {
            let f = AssertionFailure::assemble(
                FailureKind::Length,
                Some(render_labelled(self.actual())),
                Some(text_of("is not empty")),
                None,
                None,
            );
            self.conclude(false, f)
        }
    }

    fn is_not_empty(self) -> (r: Self)
        ensures
            self.continues_as(&r, self.subject().element_count() != 0, empty_failure(&self.subject())),
    {
        if HasLength::is_not_empty(self.actual()) {
            self.pass()
        } else {
            let f = AssertionFailure::assemble(
                FailureKind::Length,
                Some(render_labelled(self.actual())),
                Some(text_of("is unexpectedly empty")),
                None,
                None,
            );
            self.conclude(false, f)
        }
    }

    fn has_length(self, expected: usize) -> (r: Self)
        ensures
            self.continues_as(
                &r,
                self.subject().element_count() == expected,
                length_failure(&self.subject(), expected as int, self.subject().element_count()),
            ),
    {
        let n = self.actual().length();
        if n == expected {
            self.pass()
        } else {
            let f = AssertionFailure::assemble(
                FailureKind::Length,
                Some(render_labelled(self.actual())),
                Some(text_of("does not have the expected length")),
                Some(render_unsigned(expected as u64)),
                None,
            );
            let f = f.add_fact(Some(text_of("Actual length")), render_unsigned(n as u64));
            self.conclude(false, f)
        }
    }

    fn be_empty(self) -> (r: Self)
        ensures
            self.continues_as(&r, self.subject().element_count() == 0, not_empty_failure(&self.subject())),
    {
        self.is_empty()
    }

    fn not_be_empty(self) -> (r: Self)
        ensures
            self.continues_as(&r, self.subject().element_count() != 0, empty_failure(&self.subject())),
    {
        self.is_not_empty()
    }

    fn have_length(self, expected: usize) -> (r: Self)
        ensures
            self.continues_as(
                &r,
                self.subject().element_count() == expected,
                length_failure(&self.subject(), expected as int, self.subject().element_count()),
            ),
    {
        self.has_length(expected)
    }
}

} // verus!
