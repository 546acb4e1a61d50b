//! Rendering of subjects and operands into the text shown in failure reports.
//!
//! [`Render`] is the `Debug`-like representation: strings and characters are quoted
//! and escaped, collections use list syntax. [`DisplayText`] is the `Display`-like
//! representation: strings and characters appear verbatim.

use vstd::prelude::*;
use crate::text::{push_char, push_text, text_of};

verus! {

/// The decimal digit character for `d`, which must lie in `0..10`.
pub open spec fn digit_char(d: nat) -> char {
    if d == 0 { '0' }
    else if d == 1 { '1' }
    else if d == 2 { '2' }
    else if d == 3 { '3' }
    else if d == 4 { '4' }
    else if d == 5 { '5' }
    else if d == 6 { '6' }
    else if d == 7 { '7' }
    else if d == 8 { '8' }
    else { '9' }
}

/// Decimal digits of a natural number, most significant first, without leading zeros.
pub open spec fn decimal_digits(n: nat) -> Seq<char>
    decreases n,
{
    if n < 10 {
        seq![digit_char(n)]
    } else {
        decimal_digits(n / 10).push(digit_char(n % 10))
    }
}

/// Decimal text of an integer: a leading `-` for negative numbers, then its digits.
pub open spec fn decimal_text(i: int) -> Seq<char> {
    if i < 0 {
        seq!['-'] + decimal_digits((-i) as nat)
    } else {
        decimal_digits(i as nat)
    }
}

/// The quoted and escaped form that `{:?}` produces for a character.
pub uninterp spec fn char_debug_text(c: char) -> Seq<char>;

/// The quoted and escaped form that `{:?}` produces for a string.
pub uninterp spec fn str_debug_text(s: Seq<char>) -> Seq<char>;

fn digit_of(d: u64) -> (c: char)
    requires
        d < 10,
    ensures
        c == digit_char(d as nat),
{
    if d == 0 { '0' }
    else if d == 1 { '1' }
    else if d == 2 { '2' }
    else if d == 3 { '3' }
    else if d == 4 { '4' }
    else if d == 5 { '5' }
    else if d == 6 { '6' }
    else if d == 7 { '7' }
    else if d == 8 { '8' }
    else { '9' }
}

fn push_decimal_digits(s: &mut String, n: u64)
    ensures
        final(s)@ == old(s)@ + decimal_digits(n as nat),
    decreases n,
{
    if n < 10 {
        push_char(s, digit_of(n));
    } else {
        push_decimal_digits(s, n / 10);
        push_char(s, digit_of(n % 10));
    }
}

/// Decimal rendering of an unsigned number.
pub fn render_unsigned(n: u64) -> (s: String)
    ensures
        s@ == decimal_text(n as int),
{
    let mut s = String::new();
    push_decimal_digits(&mut s, n);
    s
}

/// Decimal rendering of a signed number.
pub fn render_signed(n: i64) -> (s: String)
    ensures
        s@ == decimal_text(n as int),
{
    let mut s = String::new();
    if n < 0 {
        push_char(&mut s, '-');
        let magnitude: u64 = if n == i64::MIN {
            9223372036854775808u64
        } else {
            (-n) as u64
        };
        push_decimal_digits(&mut s, magnitude);
    } else {
        push_decimal_digits(&mut s, n as u64);
    }
    s
}

/// Renders a character with `{:?}`.
///
/// Trusted: formats `c` with `Debug`, which quotes it with single quotes and escapes
/// it. The result is named `char_debug_text(c)`.
#[verifier::external_body]
pub(crate) fn render_char_debug(c: char) -> (s: String)
    ensures
        s@ == char_debug_text(c),
{
    format!("{:?}", c)
}

/// Renders a string with `{:?}`.
///
/// Trusted: formats `t` with `Debug`, which quotes it with double quotes and escapes
/// it. The result is named `str_debug_text(t@)`.
#[verifier::external_body]
pub(crate) fn render_str_debug(t: &str) -> (s: String)
    ensures
        s@ == str_debug_text(t@),
{
    format!("{:?}", t)
}

/// A value with a `Debug`-like textual representation used in failure reports.
pub trait Render {
    /// The text this value is rendered as. Every type of this library states it; the default
    /// serves types implemented outside verified code, whose `render` nothing checks.
    closed spec fn rendered(&self) -> Seq<char> {
        Seq::empty()
    }

    /// Produces [`Render::rendered`].
    fn render(&self) -> (s: String)
        ensures
            s@ == self.rendered(),
    ;
}

impl Render for u8 {
    open spec fn rendered(&self) -> Seq<char> {
        decimal_text(*self as int)
    }

    fn render(&self) -> (s: String) {
        render_unsigned(*self as u64)
    }
}

impl Render for u16 {
    open spec fn rendered(&self) -> Seq<char> {
        decimal_text(*self as int)
    }

    fn render(&self) -> (s: String) {
        render_unsigned(*self as u64)
    }
}

impl Render for u32 {
    open spec fn rendered(&self) -> Seq<char> {
        decimal_text(*self as int)
    }

    fn render(&self) -> (s: String) {
        render_unsigned(*self as u64)
    }
}

impl Render for u64 {
    open spec fn rendered(&self) -> Seq<char> {
        decimal_text(*self as int)
    }

    fn render(&self) -> (s: String) {
        render_unsigned(*self)
    }
}

impl Render for usize {
    open spec fn rendered(&self) -> Seq<char> {
        decimal_text(*self as int)
    }

    fn render(&self) -> (s: String) {
        render_unsigned(*self as u64)
    }
}

impl Render for i8 {
    open spec fn rendered(&self) -> Seq<char> {
        decimal_text(*self as int)
    }

    fn render(&self) -> (s: String) {
        render_signed(*self as i64)
    }
}

impl Render for i16 {
    open spec fn rendered(&self) -> Seq<char> {
        decimal_text(*self as int)
    }

    fn render(&self) -> (s: String) {
        render_signed(*self as i64)
    }
}

impl Render for i32 {
    open spec fn rendered(&self) -> Seq<char> {
        decimal_text(*self as int)
    }

    fn render(&self) -> (s: String) {
        render_signed(*self as i64)
    }
}

impl Render for i64 {
    open spec fn rendered(&self) -> Seq<char> {
        decimal_text(*self as int)
    }

    fn render(&self) -> (s: String) {
        render_signed(*self)
    }
}

impl Render for isize {
    open spec fn rendered(&self) -> Seq<char> {
        decimal_text(*self as int)
    }

    fn render(&self) -> (s: String) {
        render_signed(*self as i64)
    }
}

impl Render for bool {
    open spec fn rendered(&self) -> Seq<char> {
        if *self { "true"@ } else { "false"@ }
    }

    fn render(&self) -> (s: String) {
        if *self { text_of("true") } else { text_of("false") }
    }
}

impl Render for char {
    open spec fn rendered(&self) -> Seq<char> {
        char_debug_text(*self)
    }

    fn render(&self) -> (s: String) {
        render_char_debug(*self)
    }
}

impl Render for str {
    open spec fn rendered(&self) -> Seq<char> {
        str_debug_text(self@)
    }

    fn render(&self) -> (s: String) {
        render_str_debug(self)
    }
}

impl Render for String {
    open spec fn rendered(&self) -> Seq<char> {
        str_debug_text(self@)
    }

    fn render(&self) -> (s: String) {
        render_str_debug(self.as_str())
    }
}

impl Render for () {
    open spec fn rendered(&self) -> Seq<char> {
        "()"@
    }

    fn render(&self) -> (s: String) {
        text_of("()")
    }
}

impl<'a, T: Render + ?Sized> Render for &'a T {
    open spec fn rendered(&self) -> Seq<char> {
        (**self).rendered()
    }

    fn render(&self) -> (s: String) {
        (**self).render()
    }
}

/// `s` with every line break followed by four spaces.
pub open spec fn indented_lines(s: Seq<char>) -> Seq<char>
    decreases s.len(),
{
    if s.len() == 0 {
        Seq::empty()
    } else if s.last() == '\n' {
        indented_lines(s.drop_last()) + "\n    "@
    } else {
        indented_lines(s.drop_last()).push(s.last())
    }
}

/// `s` indented by four spaces on every line, as the alternate `Debug` layout writes a nested
/// value.
pub open spec fn indented(s: Seq<char>) -> Seq<char> {
    "    "@ + indented_lines(s)
}

/// Indents every line of `t` by four spaces.
pub fn indent_text(t: &str) -> (s: String)
    ensures
        s@ == indented(t@),
{
    let chars = crate::text::chars_of(t);
    let mut s = text_of("    ");
    let mut i: usize = 0;
    while i < chars.len()
        invariant
            i <= chars@.len(),
            chars@ == t@,
            s@ == "    "@ + indented_lines(t@.take(i as int)),
        decreases chars@.len() - i,
    {
        let c = chars[i];
        proof {
            assert(t@.take(i + 1).drop_last() =~= t@.take(i as int));
            assert(t@.take(i + 1).last() == c);
        }
        if c == '\n' {
            push_text(&mut s, "\n    ");
        } else {
            crate::text::push_char(&mut s, c);
        }
        i = i + 1;
    }
    assert(t@.take(chars@.len() as int) =~= t@);
    s
}

/// The elements of `s`, each on its own indented line and followed by a comma.
pub open spec fn rendered_elements<T: Render>(s: Seq<T>) -> Seq<char>
    decreases s.len(),
{
    if s.len() == 0 {
        Seq::empty()
    } else {
        rendered_elements(s.drop_last()) + "\n"@ + indented(s.last().rendered()) + ","@
    }
}

/// A list in the alternate `Debug` layout: `[]` when empty, otherwise `[`, one indented line
/// per element ending in a comma, and `]` on a line of its own.
pub open spec fn rendered_list<T: Render>(s: Seq<T>) -> Seq<char> {
    if s.len() == 0 {
        "[]"@
    } else {
        "["@ + rendered_elements(s) + "\n]"@
    }
}

/// Renders a sequence of elements as [`rendered_list`] says.
pub fn render_list<T: Render>(items: &[T]) -> (s: String)
    ensures
        s@ == rendered_list(items@),
{
    if items.len() == 0 {
        return text_of("[]");
    }
    let mut s = text_of("[");
    let mut i: usize = 0;
    while i < items.len()
        invariant
            i <= items.len(),
            s@ == "["@ + rendered_elements(items@.take(i as int)),
        decreases items.len() - i,
    {
        push_text(&mut s, "\n");
        let r = items[i].render();
        let r = indent_text(r.as_str());
        push_text(&mut s, r.as_str());
        push_text(&mut s, ",");
        proof {
            let t = items@.take(i + 1);
            assert(t.drop_last() =~= items@.take(i as int));
            assert(t.last() == items@[i as int]);
        }
        i = i + 1;
    }
    assert(items@.take(items.len() as int) =~= items@);
    push_text(&mut s, "\n]");
    s
}

impl<T: Render> Render for Vec<T> {
    open spec fn rendered(&self) -> Seq<char> {
        rendered_list(self@)
    }

    fn render(&self) -> (s: String) {
        render_list(self.as_slice())
    }
}

impl<T: Render> Render for [T] {
    open spec fn rendered(&self) -> Seq<char> {
        rendered_list(self@)
    }

    fn render(&self) -> (s: String) {
        render_list(self)
    }
}

impl<T: Render, const N: usize> Render for [T; N] {
    open spec fn rendered(&self) -> Seq<char> {
        rendered_list(self@)
    }

    fn render(&self) -> (s: String) {
        broadcast use vstd::array::group_array_axioms;

        render_list(self.as_slice())
    }
}

impl<T: Render + ?Sized> Render for Box<T> {
    open spec fn rendered(&self) -> Seq<char> {
        (**self).rendered()
    }

    fn render(&self) -> (s: String) {
        (**self).render()
    }
}

impl<T: Render> Render for std::collections::VecDeque<T> {
    open spec fn rendered(&self) -> Seq<char> {
        rendered_list(self@)
    }

    fn render(&self) -> (s: String) {
        broadcast use vstd::std_specs::vecdeque::group_vec_dequeue_axioms;

        if self.len() == 0 {
            return text_of("[]");
        }
        let mut s = text_of("[");
        let mut i: usize = 0;
        while i < self.len()
            invariant
                i <= self@.len(),
                s@ == "["@ + rendered_elements(self@.take(i as int)),
            decreases self@.len() - i,
        {
            push_text(&mut s, "\n");
            let r = self[i].render();
            let r = indent_text(r.as_str());
            push_text(&mut s, r.as_str());
            push_text(&mut s, ",");
            proof {
                let t = self@.take(i + 1);
                assert(t.drop_last() =~= self@.take(i as int));
                assert(t.last() == self@[i as int]);
            }
            i = i + 1;
        }
        assert(self@.take(self@.len() as int) =~= self@);
        push_text(&mut s, "\n]");
        s
    }
}

/// A single-field variant in the alternate `Debug` layout: `name(`, the field indented on
/// its own lines and followed by a comma, and `)` on a line of its own.
pub open spec fn rendered_variant(name: Seq<char>, inner: Seq<char>) -> Seq<char> {
    name + "(\n"@ + indented(inner) + ",\n)"@
}

/// Renders a single-field variant as [`rendered_variant`] says.
pub fn render_variant(name: &str, inner: String) -> (s: String)
    ensures
        s@ == rendered_variant(name@, inner@),
{
    let mut s = text_of(name);
    push_text(&mut s, "(\n");
    let body = indent_text(inner.as_str());
    push_text(&mut s, body.as_str());
    push_text(&mut s, ",\n)");
    s
}

impl<T: Render> Render for Option<T> {
    open spec fn rendered(&self) -> Seq<char> {
        match self {
            Some(v) => rendered_variant("Some"@, v.rendered()),
            None => "None"@,
        }
    }

    fn render(&self) -> (s: String) {
        match self {
            Some(v) => render_variant("Some", v.render()),
            None => text_of("None"),
        }
    }
}

impl<T: Render, E: Render> Render for Result<T, E> {
    open spec fn rendered(&self) -> Seq<char> {
        match self {
            Ok(v) => rendered_variant("Ok"@, v.rendered()),
            Err(e) => rendered_variant("Err"@, e.rendered()),
        }
    }

    fn render(&self) -> (s: String) {
        match self {
            Ok(v) => render_variant("Ok", v.render()),
            Err(e) => render_variant("Err", e.render()),
        }
    }
}

impl<A: Render, B: Render> Render for (A, B) {
    open spec fn rendered(&self) -> Seq<char> {
        "(\n"@ + indented(self.0.rendered()) + ",\n"@ + indented(self.1.rendered()) + ",\n)"@
    }

    fn render(&self) -> (s: String) {
        let mut s = text_of("(\n");
        let a = indent_text(self.0.render().as_str());
        push_text(&mut s, a.as_str());
        push_text(&mut s, ",\n");
        let b = indent_text(self.1.render().as_str());
        push_text(&mut s, b.as_str());
        push_text(&mut s, ",\n)");
        s
    }
}

/// A value with a `Display`-like textual representation.
pub trait DisplayText {
    /// The text this value is displayed as.
    spec fn displayed(&self) -> Seq<char>;

    /// Produces [`DisplayText::displayed`].
    fn display_text(&self) -> (s: String)
        ensures
            s@ == self.displayed(),
    ;
}

impl DisplayText for u32 {
    open spec fn displayed(&self) -> Seq<char> {
        decimal_text(*self as int)
    }

    fn display_text(&self) -> (s: String) {
        render_unsigned(*self as u64)
    }
}

impl DisplayText for u64 {
    open spec fn displayed(&self) -> Seq<char> {
        decimal_text(*self as int)
    }

    fn display_text(&self) -> (s: String) {
        render_unsigned(*self)
    }
}

impl DisplayText for usize {
    open spec fn displayed(&self) -> Seq<char> {
        decimal_text(*self as int)
    }

    fn display_text(&self) -> (s: String) {
        render_unsigned(*self as u64)
    }
}

impl DisplayText for i32 {
    open spec fn displayed(&self) -> Seq<char> {
        decimal_text(*self as int)
    }

    fn display_text(&self) -> (s: String) {
        render_signed(*self as i64)
    }
}

impl DisplayText for i64 {
    open spec fn displayed(&self) -> Seq<char> {
        decimal_text(*self as int)
    }

    fn display_text(&self) -> (s: String) {
        render_signed(*self)
    }
}

impl DisplayText for bool {
    open spec fn displayed(&self) -> Seq<char> {
        if *self { "true"@ } else { "false"@ }
    }

    fn display_text(&self) -> (s: String) {
        if *self { text_of("true") } else { text_of("false") }
    }
}

impl DisplayText for char {
    open spec fn displayed(&self) -> Seq<char> {
        seq![*self]
    }

    fn display_text(&self) -> (s: String) {
        let mut s = String::new();
        push_char(&mut s, *self);
        s
    }
}

impl DisplayText for str {
    open spec fn displayed(&self) -> Seq<char> {
        self@
    }

    fn display_text(&self) -> (s: String) {
        text_of(self)
    }
}

impl DisplayText for String {
    open spec fn displayed(&self) -> Seq<char> {
        self@
    }

    fn display_text(&self) -> (s: String) {
        text_of(self.as_str())
    }
}

impl<'a, T: DisplayText + ?Sized> DisplayText for &'a T {
    open spec fn displayed(&self) -> Seq<char> {
        (**self).displayed()
    }

    fn display_text(&self) -> (s: String) {
        (**self).display_text()
    }
}

} // verus!
