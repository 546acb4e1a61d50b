//! Numeric assertions on integers: zero, one, and closeness within a deviation.

use vstd::prelude::*;
use crate::assert_that::AssertThat;
use crate::failure::{AssertionFailure, FailureKind, FailureView, failure_with};
use crate::render::{Render, decimal_text};
use crate::text::{push_text, text_of};

verus! {

/// An integer type the numeric assertions apply to.
pub trait Integer: Sized + Copy + Render {
    /// The value as a mathematical integer.
    spec fn int_value(&self) -> int;

    /// Whether `i` is a value of the type.
    spec fn in_range(i: int) -> bool;

    /// The value is rendered as its decimal digits.
    proof fn lemma_rendered_decimal(&self)
        ensures
            self.rendered() == decimal_text(self.int_value()),
            Self::in_range(self.int_value()),
    ;

    /// Zero.
    fn zero() -> (z: Self)
        ensures
            z.int_value() == 0,
    ;

    /// One.
    fn one() -> (o: Self)
        ensures
            o.int_value() == 1,
    ;

    /// Whether two values are equal.
    fn same_as(&self, other: &Self) -> (b: bool)
        ensures
            b == (self.int_value() == other.int_value()),
    ;

    /// Whether this value is at most `other`.
    fn at_most(&self, other: &Self) -> (b: bool)
        ensures
            b == (self.int_value() <= other.int_value()),
    ;

    /// The sum, which must be a value of the type.
    fn plus(&self, other: &Self) -> (r: Self)
        requires
            Self::in_range(self.int_value() + other.int_value()),
        ensures
            r.int_value() == self.int_value() + other.int_value(),
    ;

    /// The difference, which must be a value of the type.
    fn minus(&self, other: &Self) -> (r: Self)
        requires
            Self::in_range(self.int_value() - other.int_value()),
        ensures
            r.int_value() == self.int_value() - other.int_value(),
    ;
}

impl Integer for u8 {
    open spec fn int_value(&self) -> int {
        *self as int
    }

    open spec fn in_range(i: int) -> bool {
        u8::MIN <= i <= u8::MAX
    }

    proof fn lemma_rendered_decimal(&self) {
    }

    fn zero() -> (z: Self) {
        0
    }

    fn one() -> (o: Self) {
        1
    }

    fn same_as(&self, other: &Self) -> (b: bool) {
        *self == *other
    }

    fn at_most(&self, other: &Self) -> (b: bool) {
        *self <= *other
    }

    fn plus(&self, other: &Self) -> (r: Self) {
        *self + *other
    }

    fn minus(&self, other: &Self) -> (r: Self) {
        *self - *other
    }
}

impl Integer for u16 {
    open spec fn int_value(&self) -> int {
        *self as int
    }

    open spec fn in_range(i: int) -> bool {
        u16::MIN <= i <= u16::MAX
    }

    proof fn lemma_rendered_decimal(&self) {
    }

    fn zero() -> (z: Self) {
        0
    }

    fn one() -> (o: Self) {
        1
    }

    fn same_as(&self, other: &Self) -> (b: bool) {
        *self == *other
    }

    fn at_most(&self, other: &Self) -> (b: bool) {
        *self <= *other
    }

    fn plus(&self, other: &Self) -> (r: Self) {
        *self + *other
    }

    fn minus(&self, other: &Self) -> (r: Self) {
        *self - *other
    }
}

impl Integer for u32 {
    open spec fn int_value(&self) -> int {
        *self as int
    }

    open spec fn in_range(i: int) -> bool {
        u32::MIN <= i <= u32::MAX
    }

    proof fn lemma_rendered_decimal(&self) {
    }

    fn zero() -> (z: Self) {
        0
    }

    fn one() -> (o: Self) {
        1
    }

    fn same_as(&self, other: &Self) -> (b: bool) {
        *self == *other
    }

    fn at_most(&self, other: &Self) -> (b: bool) {
        *self <= *other
    }

    fn plus(&self, other: &Self) -> (r: Self) {
        *self + *other
    }

    fn minus(&self, other: &Self) -> (r: Self) {
        *self - *other
    }
}

impl Integer for u64 {
    open spec fn int_value(&self) -> int {
        *self as int
    }

    open spec fn in_range(i: int) -> bool {
        u64::MIN <= i <= u64::MAX
    }

    proof fn lemma_rendered_decimal(&self) {
    }

    fn zero() -> (z: Self) {
        0
    }

    fn one() -> (o: Self) {
        1
    }

    fn same_as(&self, other: &Self) -> (b: bool) {
        *self == *other
    }

    fn at_most(&self, other: &Self) -> (b: bool) {
        *self <= *other
    }

    fn plus(&self, other: &Self) -> (r: Self) {
        *self + *other
    }

    fn minus(&self, other: &Self) -> (r: Self) {
        *self - *other
    }
}

impl Integer for usize {
    open spec fn int_value(&self) -> int {
        *self as int
    }

    open spec fn in_range(i: int) -> bool {
        usize::MIN <= i <= usize::MAX
    }

    proof fn lemma_rendered_decimal(&self) {
    }

    fn zero() -> (z: Self) {
        0
    }

    fn one() -> (o: Self) {
        1
    }

    fn same_as(&self, other: &Self) -> (b: bool) {
        *self == *other
    }

    fn at_most(&self, other: &Self) -> (b: bool) {
        *self <= *other
    }

    fn plus(&self, other: &Self) -> (r: Self) {
        *self + *other
    }

    fn minus(&self, other: &Self) -> (r: Self) {
        *self - *other
    }
}

impl Integer for i8 {
    open spec fn int_value(&self) -> int {
        *self as int
    }

    open spec fn in_range(i: int) -> bool {
        i8::MIN <= i <= i8::MAX
    }

    proof fn lemma_rendered_decimal(&self) {
    }

    fn zero() -> (z: Self) {
        0
    }

    fn one() -> (o: Self) {
        1
    }

    fn same_as(&self, other: &Self) -> (b: bool) {
        *self == *other
    }

    fn at_most(&self, other: &Self) -> (b: bool) {
        *self <= *other
    }

    fn plus(&self, other: &Self) -> (r: Self) {
        *self + *other
    }

    fn minus(&self, other: &Self) -> (r: Self) {
        *self - *other
    }
}

impl Integer for i16 {
    open spec fn int_value(&self) -> int {
        *self as int
    }

    open spec fn in_range(i: int) -> bool {
        i16::MIN <= i <= i16::MAX
    }

    proof fn lemma_rendered_decimal(&self) {
    }

    fn zero() -> (z: Self) {
        0
    }

    fn one() -> (o: Self) {
        1
    }

    fn same_as(&self, other: &Self) -> (b: bool) {
        *self == *other
    }

    fn at_most(&self, other: &Self) -> (b: bool) {
        *self <= *other
    }

    fn plus(&self, other: &Self) -> (r: Self) {
        *self + *other
    }

    fn minus(&self, other: &Self) -> (r: Self) {
        *self - *other
    }
}

impl Integer for i32 {
    open spec fn int_value(&self) -> int {
        *self as int
    }

    open spec fn in_range(i: int) -> bool {
        i32::MIN <= i <= i32::MAX
    }

    proof fn lemma_rendered_decimal(&self) {
    }

    fn zero() -> (z: Self) {
        0
    }

    fn one() -> (o: Self) {
        1
    }

    fn same_as(&self, other: &Self) -> (b: bool) {
        *self == *other
    }

    fn at_most(&self, other: &Self) -> (b: bool) {
        *self <= *other
    }

    fn plus(&self, other: &Self) -> (r: Self) {
        *self + *other
    }

    fn minus(&self, other: &Self) -> (r: Self) {
        *self - *other
    }
}

impl Integer for i64 {
    open spec fn int_value(&self) -> int {
        *self as int
    }

    open spec fn in_range(i: int) -> bool {
        i64::MIN <= i <= i64::MAX
    }

    proof fn lemma_rendered_decimal(&self) {
    }

    fn zero() -> (z: Self) {
        0
    }

    fn one() -> (o: Self) {
        1
    }

    fn same_as(&self, other: &Self) -> (b: bool) {
        *self == *other
    }

    fn at_most(&self, other: &Self) -> (b: bool) {
        *self <= *other
    }

    fn plus(&self, other: &Self) -> (r: Self) {
        *self + *other
    }

    fn minus(&self, other: &Self) -> (r: Self) {
        *self - *other
    }
}

impl Integer for isize {
    open spec fn int_value(&self) -> int {
        *self as int
    }

    open spec fn in_range(i: int) -> bool {
        isize::MIN <= i <= isize::MAX
    }

    proof fn lemma_rendered_decimal(&self) {
    }

    fn zero() -> (z: Self) {
        0
    }

    fn one() -> (o: Self) {
        1
    }

    fn same_as(&self, other: &Self) -> (b: bool) {
        *self == *other
    }

    fn at_most(&self, other: &Self) -> (b: bool) {
        *self <= *other
    }

    fn plus(&self, other: &Self) -> (r: Self) {
        *self + *other
    }

    fn minus(&self, other: &Self) -> (r: Self) {
        *self - *other
    }
}

/// The failure of a value that was to equal `expected` and does not.
pub open spec fn unequal_number_failure(actual: int, expected: int) -> FailureView {
    failure_with(FailureKind::Equality, Some(decimal_text(actual)), None, Some(decimal_text(expected)), None)
}

/// How the interval from `low` to `high`, both included, is written.
pub open spec fn rendered_interval(low: int, high: int) -> Seq<char> {
    "["@ + decimal_text(low) + ", "@ + decimal_text(high) + "]"@
}

/// The failure of a value that was to lie within `deviation` of `expected` and does not.
pub open spec fn distant_number_failure(actual: int, expected: int, deviation: int) -> FailureView {
    failure_with(
        FailureKind::Order,
        Some(decimal_text(actual)),
        Some("is not in range"@),
        Some(rendered_interval(expected - deviation, expected + deviation)),
        None,
    )
}

/// Whether `actual` lies within `deviation` of `expected`, both ends included.
pub open spec fn close_to(actual: int, expected: int, deviation: int) -> bool {
    expected - deviation <= actual <= expected + deviation
}

fn explain_unequal<T: Integer>(actual: &T, expected: &T) -> (f: AssertionFailure)
    ensures
        f@ == unequal_number_failure(actual.int_value(), expected.int_value()),
{
    proof {
        actual.lemma_rendered_decimal();
        expected.lemma_rendered_decimal();
    }
    AssertionFailure::assemble(FailureKind::Equality, Some(actual.render()), None, Some(expected.render()), None)
}

fn explain_distant<T: Integer>(actual: &T, low: &T, high: &T, expected: Ghost<int>, deviation: Ghost<int>) -> (f: AssertionFailure)
    requires
        low.int_value() == expected@ - deviation@,
        high.int_value() == expected@ + deviation@,
    ensures
        f@ == distant_number_failure(actual.int_value(), expected@, deviation@),
{
    proof {
        actual.lemma_rendered_decimal();
        low.lemma_rendered_decimal();
        high.lemma_rendered_decimal();
    }
    let mut interval = text_of("[");
    push_text(&mut interval, low.render().as_str());
    push_text(&mut interval, ", ");
    push_text(&mut interval, high.render().as_str());
    push_text(&mut interval, "]");
    AssertionFailure::assemble(
        FailureKind::Order,
        Some(actual.render()),
        Some(text_of("is not in range")),
        Some(interval),
        None,
    )
}

/// Assertions on integer subjects.
pub trait NumAssertions<T: Integer>: Sized {
    /// Asserts that the subject is zero.
    fn is_zero(self) -> Self;

    /// Asserts that the subject is one.
    fn is_one(self) -> Self;

    /// Asserts that the subject lies within `allowed_deviation` of `expected`, both ends of
    /// the interval included; the ends must be values of the type.
    fn is_close_to(self, expected: T, allowed_deviation: T) -> Self
        requires
            T::in_range(expected.int_value() - allowed_deviation.int_value()),
            T::in_range(expected.int_value() + allowed_deviation.int_value()),
    ;
}

impl<T: Integer> NumAssertions<T> for AssertThat<T> {
    fn is_zero(self) -> (r: Self)
        ensures
            self.continues_as(&r, self.subject().int_value() == 0, unequal_number_failure(self.subject().int_value(), 0)),
    {
        let zero = T::zero();
        if self.actual().same_as(&zero) {
            let ghost before = self;
            let r = self.pass();
            assert(before.continues_as(&r, true, unequal_number_failure(before.subject().int_value(), 0)));
            r
        } else {
            let f = explain_unequal(self.actual(), &zero);
            self.conclude(false, f)
        }
    }

    fn is_one(self) -> (r: Self)
        ensures
            self.continues_as(&r, self.subject().int_value() == 1, unequal_number_failure(self.subject().int_value(), 1)),
    {
        let one = T::one();
        if self.actual().same_as(&one) {
            let ghost before = self;
            let r = self.pass();
            assert(before.continues_as(&r, true, unequal_number_failure(before.subject().int_value(), 1)));
            r
        } else {
            let f = explain_unequal(self.actual(), &one);
            self.conclude(false, f)
        }
    }

    fn is_close_to(self, expected: T, allowed_deviation: T) -> (r: Self)
        ensures
            self.continues_as(
                &r,
                close_to(self.subject().int_value(), expected.int_value(), allowed_deviation.int_value()),
                distant_number_failure(self.subject().int_value(), expected.int_value(), allowed_deviation.int_value()),
            ),
    {
        let low = expected.minus(&allowed_deviation);
        let high = expected.plus(&allowed_deviation);
        if low.at_most(self.actual()) && self.actual().at_most(&high) {
            let ghost before = self;
            let r = self.pass();
            assert(before.continues_as(
                &r,
                true,
                distant_number_failure(before.subject().int_value(), expected.int_value(), allowed_deviation.int_value()),
            ));
            r
        } else {
            let f = explain_distant(
                self.actual(),
                &low,
                &high,
                Ghost(expected.int_value()),
                Ghost(allowed_deviation.int_value()),
            );
            self.conclude(false, f)
        }
    }
}

} // verus!
