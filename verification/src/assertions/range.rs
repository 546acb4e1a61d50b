//! Assertions on ranges: whether a range holds a value, and whether a value lies in a range.

use vstd::prelude::*;
use core::marker::PhantomData;
use core::ops::{Bound, Range, RangeBounds, RangeFull, RangeInclusive};
use crate::assert_that::{AssertThat, Expectation};
use crate::assertions::partial_ord::{Relation, compare, ordered};
use crate::failure::{AssertionFailure, FailureKind, FailureView, failure_with};
use crate::render::Render;
use crate::text::{push_text, text_of};
use vstd::std_specs::cmp::PartialOrdSpec;

verus! {

/// One end of a range.
#[derive(Clone, Copy, Debug, PartialEq, Eq)]
pub enum Edge<B> {
    Included(B),
    Excluded(B),
    Unbounded,
}

/// The edge a borrowed edge points to.
pub open spec fn unref<B>(e: Edge<&B>) -> Edge<B> {
    match e {
        Edge::Included(b) => Edge::Included(*b),
        Edge::Excluded(b) => Edge::Excluded(*b),
        Edge::Unbounded => Edge::Unbounded,
    }
}

/// Trusted: calls `RangeBounds::end_bound` on an inclusive range, which is `Excluded(end)` once
/// the range was run to its end and `Included(end)` before; the bound is handed out as an edge.
#[verifier::external_body]
fn inclusive_end_edge<B>(r: &RangeInclusive<B>) -> (e: Edge<&B>)
    ensures
        unref(e) == if r@.exhausted { Edge::Excluded(r@.end) } else { Edge::Included(r@.end) },
{
    match r.end_bound() {
        Bound::Included(b) => Edge::Included(b),
        Bound::Excluded(b) => Edge::Excluded(b),
        Bound::Unbounded => Edge::Unbounded,
    }
}

/// A range given by its two edges.
pub trait RangeLike<B> {
    /// The lower edge.
    spec fn lower(&self) -> Edge<B>;

    /// The upper edge.
    spec fn upper(&self) -> Edge<B>;

    /// The lower edge, borrowed.
    fn lower_edge(&self) -> (e: Edge<&B>)
        ensures
            unref(e) == self.lower(),
    ;

    /// The upper edge, borrowed.
    fn upper_edge(&self) -> (e: Edge<&B>)
        ensures
            unref(e) == self.upper(),
    ;
}

/// The unbounded range `..`, declared so that it can stand in signatures.
#[verifier::external_type_specification]
#[verifier::external_body]
pub struct ExRangeFull(RangeFull);

impl<B> RangeLike<B> for RangeFull {
    open spec fn lower(&self) -> Edge<B> {
        Edge::Unbounded
    }

    open spec fn upper(&self) -> Edge<B> {
        Edge::Unbounded
    }

    fn lower_edge(&self) -> (e: Edge<&B>) {
        Edge::Unbounded
    }

    fn upper_edge(&self) -> (e: Edge<&B>) {
        Edge::Unbounded
    }
}

impl<B> RangeLike<B> for Range<B> {
    open spec fn lower(&self) -> Edge<B> {
        Edge::Included(self.start)
    }

    open spec fn upper(&self) -> Edge<B> {
        Edge::Excluded(self.end)
    }

    fn lower_edge(&self) -> (e: Edge<&B>) {
        Edge::Included(&self.start)
    }

    fn upper_edge(&self) -> (e: Edge<&B>) {
        Edge::Excluded(&self.end)
    }
}

impl<B> RangeLike<B> for RangeInclusive<B> {
    open spec fn lower(&self) -> Edge<B> {
        Edge::Included(self@.start)
    }

    open spec fn upper(&self) -> Edge<B> {
        if self@.exhausted {
            Edge::Excluded(self@.end)
        } else {
            Edge::Included(self@.end)
        }
    }

    fn lower_edge(&self) -> (e: Edge<&B>) {
        Edge::Included(crate::assertions::length::inclusive_start(self))
    }

    fn upper_edge(&self) -> (e: Edge<&B>) {
        inclusive_end_edge(self)
    }
}

fn borrow_edge<B>(e: &Edge<B>) -> (r: Edge<&B>)
    ensures
        unref(r) == *e,
{
    match e {
        Edge::Included(b) => Edge::Included(b),
        Edge::Excluded(b) => Edge::Excluded(b),
        Edge::Unbounded => Edge::Unbounded,
    }
}

impl<B> RangeLike<B> for (Edge<B>, Edge<B>) {
    open spec fn lower(&self) -> Edge<B> {
        self.0
    }

    open spec fn upper(&self) -> Edge<B> {
        self.1
    }

    fn lower_edge(&self) -> (e: Edge<&B>) {
        borrow_edge(&self.0)
    }

    fn upper_edge(&self) -> (e: Edge<&B>) {
        borrow_edge(&self.1)
    }
}

impl<'a, B, R: RangeLike<B>> RangeLike<B> for &'a R {
    open spec fn lower(&self) -> Edge<B> {
        (**self).lower()
    }

    open spec fn upper(&self) -> Edge<B> {
        (**self).upper()
    }

    fn lower_edge(&self) -> (e: Edge<&B>) {
        (**self).lower_edge()
    }

    fn upper_edge(&self) -> (e: Edge<&B>) {
        (**self).upper_edge()
    }
}

/// `x` is not below the lower edge.
pub open spec fn above_lower<B: PartialOrd>(lower: Edge<B>, x: &B) -> bool {
    match lower {
        Edge::Included(s) => ordered(&s, x, Relation::LessOrEqual),
        Edge::Excluded(s) => ordered(&s, x, Relation::Less),
        Edge::Unbounded => true,
    }
}

/// `x` is not above the upper edge.
pub open spec fn below_upper<B: PartialOrd>(upper: Edge<B>, x: &B) -> bool {
    match upper {
        Edge::Included(e) => ordered(x, &e, Relation::LessOrEqual),
        Edge::Excluded(e) => ordered(x, &e, Relation::Less),
        Edge::Unbounded => true,
    }
}

/// `x` lies between the edges, by `B`'s specified `partial_cmp`.
pub open spec fn within<B: PartialOrd>(lower: Edge<B>, upper: Edge<B>, x: &B) -> bool {
    above_lower(lower, x) && below_upper(upper, x)
}

/// `ok` is whether `x` lies between the edges, as far as `B`'s `PartialOrd` follows its
/// specification; a range without edges holds every value, with nothing compared.
pub open spec fn range_verdict<B: PartialOrd>(lower: Edge<B>, upper: Edge<B>, x: &B, ok: bool) -> bool {
    &&& (lower is Unbounded && upper is Unbounded ==> ok)
    &&& (B::obeys_partial_cmp_spec() ==> ok == within(lower, upper, x))
}

/// Decides whether `x` lies between the edges.
pub fn holds<B: PartialOrd>(lower: Edge<&B>, upper: Edge<&B>, x: &B) -> (ok: bool)
    ensures
        range_verdict(unref(lower), unref(upper), x, ok),
{
    let above = match lower {
        Edge::Included(s) => compare(s, x, Relation::LessOrEqual),
        Edge::Excluded(s) => compare(s, x, Relation::Less),
        Edge::Unbounded => true,
    };
    let below = match upper {
        Edge::Included(e) => compare(x, e, Relation::LessOrEqual),
        Edge::Excluded(e) => compare(x, e, Relation::Less),
        Edge::Unbounded => true,
    };
    above && below
}

/// How an edge is written inside a pair of edges.
pub open spec fn rendered_edge<B: Render>(e: Edge<B>) -> Seq<char> {
    match e {
        Edge::Included(b) => "Included("@ + b.rendered() + ")"@,
        Edge::Excluded(b) => "Excluded("@ + b.rendered() + ")"@,
        Edge::Unbounded => "Unbounded"@,
    }
}

/// How a range is written: in range syntax (`a..b`, `a..=b`, `a..`, `..b`, `..=b`, `..`),
/// or, when the lower edge excludes its value, which range syntax cannot say, as the pair of
/// edges.
pub open spec fn rendered_range<B: Render>(lower: Edge<B>, upper: Edge<B>) -> Seq<char> {
    match lower {
        Edge::Excluded(_) => "("@ + rendered_edge(lower) + ", "@ + rendered_edge(upper) + ")"@,
        Edge::Included(s) => match upper {
            Edge::Included(e) => s.rendered() + "..="@ + e.rendered(),
            Edge::Excluded(e) => s.rendered() + ".."@ + e.rendered(),
            Edge::Unbounded => s.rendered() + ".."@,
        },
        Edge::Unbounded => match upper {
            Edge::Included(e) => "..="@ + e.rendered(),
            Edge::Excluded(e) => ".."@ + e.rendered(),
            Edge::Unbounded => ".."@,
        },
    }
}

fn render_edge<B: Render>(e: &Edge<&B>) -> (s: String)
    ensures
        s@ == rendered_edge(unref(*e)),
{
    match e {
        Edge::Included(b) => {
            let mut s = text_of("Included(");
            push_text(&mut s, b.render().as_str());
            push_text(&mut s, ")");
            s
        },
        Edge::Excluded(b) => {
            let mut s = text_of("Excluded(");
            push_text(&mut s, b.render().as_str());
            push_text(&mut s, ")");
            s
        },
        Edge::Unbounded => text_of("Unbounded"),
    }
}

/// Writes a range as [`rendered_range`] says.
pub fn render_range<B: Render>(lower: Edge<&B>, upper: Edge<&B>) -> (s: String)
    ensures
        s@ == rendered_range(unref(lower), unref(upper)),
{
    match lower {
        Edge::Excluded(_) => {
            let mut s = text_of("(");
            push_text(&mut s, render_edge(&lower).as_str());
            push_text(&mut s, ", ");
            push_text(&mut s, render_edge(&upper).as_str());
            push_text(&mut s, ")");
            s
        },
        Edge::Included(start) => {
            let mut s = start.render();
            match upper {
                Edge::Included(end) => {
                    push_text(&mut s, "..=");
                    push_text(&mut s, end.render().as_str());
                },
                Edge::Excluded(end) => {
                    push_text(&mut s, "..");
                    push_text(&mut s, end.render().as_str());
                },
                Edge::Unbounded => {
                    push_text(&mut s, "..");
                },
            }
            s
        },
        Edge::Unbounded => match upper {
            Edge::Included(end) => {
                let mut s = text_of("..=");
                push_text(&mut s, end.render().as_str());
                s
            },
            Edge::Excluded(end) => {
                let mut s = text_of("..");
                push_text(&mut s, end.render().as_str());
                s
            },
            Edge::Unbounded => text_of(".."),
        },
    }
}

/// An operand of a membership check: the value itself, or a borrow of it.
pub trait Operand<B> {
    /// The value the operand stands for.
    spec fn target(&self) -> B;

    /// Borrows the value the operand stands for.
    fn operand(&self) -> (r: &B)
        ensures
            *r == self.target(),
    ;
}

impl<B> Operand<B> for B {
    open spec fn target(&self) -> B {
        *self
    }

    fn operand(&self) -> (r: &B) {
        self
    }
}

impl<'a, B> Operand<B> for &'a B {
    open spec fn target(&self) -> B {
        **self
    }

    fn operand(&self) -> (r: &B) {
        *self
    }
}

/// The failure of a range that was to hold `element` and does not.
pub open spec fn missing_element_failure<B: Render>(lower: Edge<B>, upper: Edge<B>, element: B) -> FailureView {
    failure_with(
        FailureKind::Membership,
        Some(rendered_range(lower, upper)),
        Some("does not contain"@),
        Some(element.rendered()),
        None,
    )
}

/// The failure of a range that was not to hold `element` and does.
pub open spec fn held_element_failure<B: Render>(lower: Edge<B>, upper: Edge<B>, element: B) -> FailureView {
    failure_with(
        FailureKind::Membership,
        Some(rendered_range(lower, upper)),
        Some("contains"@),
        None,
        Some(element.rendered()),
    )
}

/// The failure of a value that was to lie in a range and does not.
pub open spec fn outside_failure<B: Render>(value: B, lower: Edge<B>, upper: Edge<B>) -> FailureView {
    failure_with(
        FailureKind::Order,
        Some(value.rendered()),
        Some("is not in range"@),
        Some(rendered_range(lower, upper)),
        None,
    )
}

/// The failure of a value that was to lie outside a range and does not.
pub open spec fn inside_failure<B: Render>(value: B, lower: Edge<B>, upper: Edge<B>) -> FailureView {
    failure_with(
        FailureKind::Order,
        Some(value.rendered()),
        Some("is in range"@),
        None,
        Some(rendered_range(lower, upper)),
    )
}

/// Checks that a range holds an element, honouring included, excluded and missing edges.
pub struct ContainsElement<B, E = B> {
    pub expected: E,
    pub bound: PhantomData<B>,
}

impl<B> ContainsElement<B> {
    /// Owns the expected element.
    pub fn new(expected: B) -> (m: Self)
        ensures
            m.expected == expected,
    {
        ContainsElement { expected, bound: PhantomData }
    }

    /// Takes an operand that stands for an element of type `B`, such as a borrow of one.
    pub fn borrowing<E: Operand<B>>(expected: E) -> (m: ContainsElement<B, E>)
        ensures
            m.expected == expected,
    {
        ContainsElement { expected, bound: PhantomData }
    }
}

/// Checks that a range does not hold an element, honouring included, excluded and missing edges.
pub struct DoesNotContainElement<B, E = B> {
    pub expected: E,
    pub bound: PhantomData<B>,
}

impl<B> DoesNotContainElement<B> {
    /// Owns the unexpected element.
    pub fn new(expected: B) -> (m: Self)
        ensures
            m.expected == expected,
    {
        DoesNotContainElement { expected, bound: PhantomData }
    }

    /// Takes an operand that stands for an element of type `B`, such as a borrow of one.
    pub fn borrowing<E: Operand<B>>(expected: E) -> (m: DoesNotContainElement<B, E>)
        ensures
            m.expected == expected,
    {
        DoesNotContainElement { expected, bound: PhantomData }
    }
}

impl<B: PartialOrd + Render, E: Operand<B>, Rg: RangeLike<B>> Expectation<Rg> for ContainsElement<B, E> {
    open spec fn applicable(&self, actual: &Rg) -> bool {
        true
    }

    open spec fn admits(&self, actual: &Rg, ok: bool) -> bool {
        range_verdict(actual.lower(), actual.upper(), &self.expected.target(), ok)
    }

    open spec fn rejection(&self, actual: &Rg) -> FailureView {
        missing_element_failure(actual.lower(), actual.upper(), self.expected.target())
    }

    fn evaluate(&self, actual: &Rg) -> (ok: bool) {
        holds(actual.lower_edge(), actual.upper_edge(), self.expected.operand())
    }

    fn explain(&self, actual: &Rg) -> (f: AssertionFailure) {
        AssertionFailure::assemble(
            FailureKind::Membership,
            Some(render_range(actual.lower_edge(), actual.upper_edge())),
            Some(text_of("does not contain")),
            Some(self.expected.operand().render()),
            None,
        )
    }
}

impl<B: PartialOrd + Render, E: Operand<B>, Rg: RangeLike<B>> Expectation<Rg> for DoesNotContainElement<B, E> {
    open spec fn applicable(&self, actual: &Rg) -> bool {
        true
    }

    open spec fn admits(&self, actual: &Rg, ok: bool) -> bool {
        range_verdict(actual.lower(), actual.upper(), &self.expected.target(), !ok)
    }

    open spec fn rejection(&self, actual: &Rg) -> FailureView {
        held_element_failure(actual.lower(), actual.upper(), self.expected.target())
    }

    fn evaluate(&self, actual: &Rg) -> (ok: bool) {
        !holds(actual.lower_edge(), actual.upper_edge(), self.expected.operand())
    }

    fn explain(&self, actual: &Rg) -> (f: AssertionFailure) {
        AssertionFailure::assemble(
            FailureKind::Membership,
            Some(render_range(actual.lower_edge(), actual.upper_edge())),
            Some(text_of("contains")),
            None,
            Some(self.expected.operand().render()),
        )
    }
}

/// Checks that a value lies in a range.
pub struct IsInRange<Rg> {
    pub expected: Rg,
}

impl<Rg> IsInRange<Rg> {
    /// Owns the range.
    pub fn new(expected: Rg) -> (m: Self)
        ensures
            m.expected == expected,
    {
        IsInRange { expected }
    }
}

/// Checks that a value lies outside a range.
pub struct IsNotInRange<Rg> {
    pub expected: Rg,
}

impl<Rg> IsNotInRange<Rg> {
    /// Owns the range.
    pub fn new(expected: Rg) -> (m: Self)
        ensures
            m.expected == expected,
    {
        IsNotInRange { expected }
    }
}

impl<B: PartialOrd + Render, Rg: RangeLike<B>> Expectation<B> for IsInRange<Rg> {
    open spec fn applicable(&self, actual: &B) -> bool {
        true
    }

    open spec fn admits(&self, actual: &B, ok: bool) -> bool {
        range_verdict(self.expected.lower(), self.expected.upper(), actual, ok)
    }

    open spec fn rejection(&self, actual: &B) -> FailureView {
        outside_failure(*actual, self.expected.lower(), self.expected.upper())
    }

    fn evaluate(&self, actual: &B) -> (ok: bool) {
        holds(self.expected.lower_edge(), self.expected.upper_edge(), actual)
    }

    fn explain(&self, actual: &B) -> (f: AssertionFailure) {
        AssertionFailure::assemble(
            FailureKind::Order,
            Some(actual.render()),
            Some(text_of("is not in range")),
            Some(render_range(self.expected.lower_edge(), self.expected.upper_edge())),
            None,
        )
    }
}

impl<B: PartialOrd + Render, Rg: RangeLike<B>> Expectation<B> for IsNotInRange<Rg> {
    open spec fn applicable(&self, actual: &B) -> bool {
        true
    }

    open spec fn admits(&self, actual: &B, ok: bool) -> bool {
        range_verdict(self.expected.lower(), self.expected.upper(), actual, !ok)
    }

    open spec fn rejection(&self, actual: &B) -> FailureView {
        inside_failure(*actual, self.expected.lower(), self.expected.upper())
    }

    fn evaluate(&self, actual: &B) -> (ok: bool) {
        !holds(self.expected.lower_edge(), self.expected.upper_edge(), actual)
    }

    fn explain(&self, actual: &B) -> (f: AssertionFailure) {
        AssertionFailure::assemble(
            FailureKind::Order,
            Some(actual.render()),
            Some(text_of("is in range")),
            None,
            Some(render_range(self.expected.lower_edge(), self.expected.upper_edge())),
        )
    }
}

/// Assertions on a range subject: whether it holds an element.
pub trait RangeBoundAssertions<B, Rg: RangeLike<B>>: Sized {
    /// Asserts that the range contains `expected`.
    fn contains_element<E: Operand<B>>(self, expected: E) -> Self
        where
            B: PartialOrd + Render,
    ;

    /// Asserts that the range does not contain `expected`.
    fn does_not_contain_element<E: Operand<B>>(self, expected: E) -> Self
        where
            B: PartialOrd + Render,
    ;

    /// Fluent name of [`RangeBoundAssertions::contains_element`].
    fn contain_element<E: Operand<B>>(self, expected: E) -> Self
        where
            B: PartialOrd + Render,
    ;

    /// Fluent name of [`RangeBoundAssertions::does_not_contain_element`].
    fn not_contain_element<E: Operand<B>>(self, expected: E) -> Self
        where
            B: PartialOrd + Render,
    ;
}

impl<B, Rg: RangeLike<B>> RangeBoundAssertions<B, Rg> for AssertThat<Rg> {
    fn contains_element<E: Operand<B>>(self, expected: E) -> (r: Self)
        where
            B: PartialOrd + Render,
        ensures
            exists|ok: bool|
                range_verdict(self.subject().lower(), self.subject().upper(), &expected.target(), ok)
                    && self.continues_as(
                    &r,
                    ok,
                    missing_element_failure(self.subject().lower(), self.subject().upper(), expected.target()),
                ),
    {
        self.apply_assertion(&ContainsElement::<B>::borrowing(expected))
    }

    fn does_not_contain_element<E: Operand<B>>(self, expected: E) -> (r: Self)
        where
            B: PartialOrd + Render,
        ensures
            exists|ok: bool|
                range_verdict(self.subject().lower(), self.subject().upper(), &expected.target(), !ok)
                    && self.continues_as(
                    &r,
                    ok,
                    held_element_failure(self.subject().lower(), self.subject().upper(), expected.target()),
                ),
    {
        self.apply_assertion(&DoesNotContainElement::<B>::borrowing(expected))
    }

    fn contain_element<E: Operand<B>>(self, expected: E) -> (r: Self)
        where
            B: PartialOrd + Render,
        ensures
            exists|ok: bool|
                range_verdict(self.subject().lower(), self.subject().upper(), &expected.target(), ok)
                    && self.continues_as(
                    &r,
                    ok,
                    missing_element_failure(self.subject().lower(), self.subject().upper(), expected.target()),
                ),
    {
        self.contains_element(expected)
    }

    fn not_contain_element<E: Operand<B>>(self, expected: E) -> (r: Self)
        where
            B: PartialOrd + Render,
        ensures
            exists|ok: bool|
                range_verdict(self.subject().lower(), self.subject().upper(), &expected.target(), !ok)
                    && self.continues_as(
                    &r,
                    ok,
                    held_element_failure(self.subject().lower(), self.subject().upper(), expected.target()),
                ),
    {
        self.does_not_contain_element(expected)
    }
}

/// Assertions on a value subject: whether it lies in a range.
pub trait RangeAssertions<B>: Sized {
    /// Asserts that the subject lies in `expected`.
    fn is_in_range<Rg: RangeLike<B>>(self, expected: Rg) -> Self
        where
            B: PartialOrd + Render,
    ;

    /// Asserts that the subject lies outside `expected`.
    fn is_not_in_range<Rg: RangeLike<B>>(self, expected: Rg) -> Self
        where
            B: PartialOrd + Render,
    ;

    /// Asserts that the subject lies outside `expected`; another name of
    /// [`RangeAssertions::is_not_in_range`].
    fn is_outside_of_range<Rg: RangeLike<B>>(self, expected: Rg) -> Self
        where
            B: PartialOrd + Render,
    ;

    /// Fluent name of [`RangeAssertions::is_in_range`].
    fn be_in_range<Rg: RangeLike<B>>(self, expected: Rg) -> Self
        where
            B: PartialOrd + Render,
    ;

    /// Fluent name of [`RangeAssertions::is_not_in_range`].
    fn not_be_in_range<Rg: RangeLike<B>>(self, expected: Rg) -> Self
        where
            B: PartialOrd + Render,
    ;

    /// Fluent name of [`RangeAssertions::is_outside_of_range`].
    fn be_outside_of_range<Rg: RangeLike<B>>(self, expected: Rg) -> Self
        where
            B: PartialOrd + Render,
    ;
}

impl<B> RangeAssertions<B> for AssertThat<B> {
    fn is_in_range<Rg: RangeLike<B>>(self, expected: Rg) -> (r: Self)
        where
            B: PartialOrd + Render,
        ensures
            exists|ok: bool|
                range_verdict(expected.lower(), expected.upper(), &self.subject(), ok)
                    && self.continues_as(
                    &r,
                    ok,
                    outside_failure(self.subject(), expected.lower(), expected.upper()),
                ),
    {
        self.apply_assertion(&IsInRange::new(expected))
    }

    fn is_not_in_range<Rg: RangeLike<B>>(self, expected: Rg) -> (r: Self)
        where
            B: PartialOrd + Render,
        ensures
            exists|ok: bool|
                range_verdict(expected.lower(), expected.upper(), &self.subject(), !ok)
                    && self.continues_as(
                    &r,
                    ok,
                    inside_failure(self.subject(), expected.lower(), expected.upper()),
                ),
    {
        self.apply_assertion(&IsNotInRange::new(expected))
    }

    fn is_outside_of_range<Rg: RangeLike<B>>(self, expected: Rg) -> (r: Self)
        where
            B: PartialOrd + Render,
        ensures
            exists|ok: bool|
                range_verdict(expected.lower(), expected.upper(), &self.subject(), !ok)
                    && self.continues_as(
                    &r,
                    ok,
                    inside_failure(self.subject(), expected.lower(), expected.upper()),
                ),
    {
        self.is_not_in_range(expected)
    }

    fn be_in_range<Rg: RangeLike<B>>(self, expected: Rg) -> (r: Self)
        where
            B: PartialOrd + Render,
        ensures
            exists|ok: bool|
                range_verdict(expected.lower(), expected.upper(), &self.subject(), ok)
                    && self.continues_as(
                    &r,
                    ok,
                    outside_failure(self.subject(), expected.lower(), expected.upper()),
                ),
    {
        self.is_in_range(expected)
    }

    fn not_be_in_range<Rg: RangeLike<B>>(self, expected: Rg) -> (r: Self)
        where
            B: PartialOrd + Render,
        ensures
            exists|ok: bool|
                range_verdict(expected.lower(), expected.upper(), &self.subject(), !ok)
                    && self.continues_as(
                    &r,
                    ok,
                    inside_failure(self.subject(), expected.lower(), expected.upper()),
                ),
    {
        self.is_not_in_range(expected)
    }

    fn be_outside_of_range<Rg: RangeLike<B>>(self, expected: Rg) -> (r: Self)
        where
            B: PartialOrd + Render,
        ensures
            exists|ok: bool|
                range_verdict(expected.lower(), expected.upper(), &self.subject(), !ok)
                    && self.continues_as(
                    &r,
                    ok,
                    inside_failure(self.subject(), expected.lower(), expected.upper()),
                ),
    {
        self.is_outside_of_range(expected)
    }
}

/// A range is written as `Debug` writes it: `start..end`.
impl<B: Render> Render for Range<B> {
    open spec fn rendered(&self) -> Seq<char> {
        self.start.rendered() + ".."@ + self.end.rendered()
    }

    fn render(&self) -> (s: String) {
        let mut s = self.start.render();
        push_text(&mut s, "..");
        push_text(&mut s, self.end.render().as_str());
        s
    }
}

/// An inclusive range is written as `Debug` writes it: `start..=end`, followed by
/// ` (exhausted)` once it was run to its end.
impl<B: Render> Render for RangeInclusive<B> {
    open spec fn rendered(&self) -> Seq<char> {
        self@.start.rendered() + "..="@ + self@.end.rendered() + if self@.exhausted {
            " (exhausted)"@
        } else {
            Seq::empty()
        }
    }

    fn render(&self) -> (s: String) {
        let mut s = crate::assertions::length::inclusive_start(self).render();
        push_text(&mut s, "..=");
        match inclusive_end_edge(self) {
            Edge::Excluded(e) => {
                push_text(&mut s, e.render().as_str());
                push_text(&mut s, " (exhausted)");
            },
            Edge::Included(e) => {
                push_text(&mut s, e.render().as_str());
            },
            Edge::Unbounded => {
                proof {
                    assert(false);
                }
            },
        }
        s
    }
}

} // verus!
