//! Ordering assertions using `PartialOrd`. Incomparable values fail every ordering check.

use vstd::prelude::*;
use core::cmp::Ordering;
use crate::assert_that::{AssertThat, Expectation};
use crate::failure::{AssertionFailure, FailureKind, FailureView, failure_with};
use crate::render::Render;
use crate::text::text_of;
use vstd::std_specs::cmp::PartialOrdSpec;

verus! {

/// The four ordering relations an assertion can require.
#[derive(Clone, Copy, Debug, PartialEq, Eq, Structural)]
pub enum Relation {
    Less,
    Greater,
    LessOrEqual,
    GreaterOrEqual,
}

/// Whether a comparison outcome satisfies `relation`; `None` (incomparable) never does.
pub open spec fn outcome_satisfies(outcome: Option<Ordering>, relation: Relation) -> bool {
    match relation {
        Relation::Less => outcome == Some(Ordering::Less),
        Relation::Greater => outcome == Some(Ordering::Greater),
        Relation::LessOrEqual => outcome == Some(Ordering::Less) || outcome == Some(Ordering::Equal),
        Relation::GreaterOrEqual => outcome == Some(Ordering::Greater) || outcome == Some(
            Ordering::Equal,
        ),
    }
}

/// Whether `actual` stands in `relation` to `expected` by `T`'s specified `partial_cmp`.
pub open spec fn ordered<T: PartialOrd<E>, E>(actual: &T, expected: &E, relation: Relation) -> bool {
    outcome_satisfies(actual.partial_cmp_spec(expected), relation)
}

/// Whether `ok` may be the verdict. When `T::obeys_partial_cmp_spec()` holds, `ok` is
/// exactly whether the relation holds; otherwise any verdict may come back.
pub open spec fn order_verdict<T: PartialOrd<E>, E>(
    actual: &T,
    expected: &E,
    relation: Relation,
    ok: bool,
) -> bool {
    T::obeys_partial_cmp_spec() ==> ok == ordered(actual, expected, relation)
}

/// The relation that held instead of `relation`.
pub open spec fn negated_relation_text(relation: Relation) -> Seq<char> {
    match relation {
        Relation::Less => "is not less than"@,
        Relation::Greater => "is not greater than"@,
        Relation::LessOrEqual => "is not less or equal to"@,
        Relation::GreaterOrEqual => "is not greater or equal to"@,
    }
}

fn negated_relation(relation: Relation) -> (s: String)
    ensures
        s@ == negated_relation_text(relation),
{
    match relation {
        Relation::Less => text_of("is not less than"),
        Relation::Greater => text_of("is not greater than"),
        Relation::LessOrEqual => text_of("is not less or equal to"),
        Relation::GreaterOrEqual => text_of("is not greater or equal to"),
    }
}

/// The failure of an ordering assertion.
pub open spec fn order_failure<T: Render, E: Render>(
    actual: &T,
    expected: &E,
    relation: Relation,
) -> FailureView {
    failure_with(
        FailureKind::Order,
        Some(actual.rendered()),
        Some(negated_relation_text(relation)),
        Some(expected.rendered()),
        None,
    )
}

/// Compares with `partial_cmp` and decides `relation`.
pub fn compare<T: PartialOrd<E>, E>(actual: &T, expected: &E, relation: Relation) -> (ok: bool)
    ensures
        order_verdict(actual, expected, relation, ok),
{
    let outcome = actual.partial_cmp(expected);
    match relation {
        Relation::Less => matches!(outcome, Some(Ordering::Less)),
        Relation::Greater => matches!(outcome, Some(Ordering::Greater)),
        Relation::LessOrEqual => matches!(outcome, Some(Ordering::Less) | Some(Ordering::Equal)),
        Relation::GreaterOrEqual => matches!(outcome, Some(Ordering::Greater) | Some(Ordering::Equal)),
    }
}

fn explain_order<T: Render, E: Render>(actual: &T, expected: &E, relation: Relation) -> (f: AssertionFailure)
    ensures
        f@ == order_failure(actual, expected, relation),
{
    AssertionFailure::assemble(
        FailureKind::Order,
        Some(actual.render()),
        Some(negated_relation(relation)),
        Some(expected.render()),
        None,
    )
}

/// Strict upper bound. Incomparable values do not match.
pub struct LessThan<E> {
    pub expected: E,
}

/// Matches values less than `expected`.
pub fn lt<E>(expected: E) -> (m: LessThan<E>)
    ensures
        m.expected == expected,
{
    LessThan::new(expected)
}

impl<E> LessThan<E> {
    /// Owns the expected operand.
    pub fn new(expected: E) -> (m: Self)
        ensures
            m.expected == expected,
    {
        LessThan { expected }
    }
}

/// Strict lower bound. Incomparable values do not match.
pub struct GreaterThan<E> {
    pub expected: E,
}

/// Matches values greater than `expected`.
pub fn gt<E>(expected: E) -> (m: GreaterThan<E>)
    ensures
        m.expected == expected,
{
    GreaterThan::new(expected)
}

impl<E> GreaterThan<E> {
    /// Owns the expected operand.
    pub fn new(expected: E) -> (m: Self)
        ensures
            m.expected == expected,
    {
        GreaterThan { expected }
    }
}

/// Inclusive upper bound. Incomparable values do not match.
pub struct LessOrEqual<E> {
    pub expected: E,
}

/// Matches values less than or equal to `expected`.
pub fn le<E>(expected: E) -> (m: LessOrEqual<E>)
    ensures
        m.expected == expected,
{
    LessOrEqual::new(expected)
}

impl<E> LessOrEqual<E> {
    /// Owns the expected operand.
    pub fn new(expected: E) -> (m: Self)
        ensures
            m.expected == expected,
    {
        LessOrEqual { expected }
    }
}

/// Inclusive lower bound. Incomparable values do not match.
pub struct GreaterOrEqual<E> {
    pub expected: E,
}

/// Matches values greater than or equal to `expected`.
pub fn ge<E>(expected: E) -> (m: GreaterOrEqual<E>)
    ensures
        m.expected == expected,
{
    GreaterOrEqual::new(expected)
}

impl<E> GreaterOrEqual<E> {
    /// Owns the expected operand.
    pub fn new(expected: E) -> (m: Self)
        ensures
            m.expected == expected,
    {
        GreaterOrEqual { expected }
    }
}

impl<T: PartialOrd<E> + Render, E: Render> Expectation<T> for LessThan<E> {
    open spec fn applicable(&self, actual: &T) -> bool {
        true
    }

    open spec fn admits(&self, actual: &T, ok: bool) -> bool {
        order_verdict(actual, &self.expected, Relation::Less, ok)
    }

    open spec fn rejection(&self, actual: &T) -> FailureView {
        order_failure(actual, &self.expected, Relation::Less)
    }

    fn evaluate(&self, actual: &T) -> (ok: bool) {
        compare(actual, &self.expected, Relation::Less)
    }

    fn explain(&self, actual: &T) -> (f: AssertionFailure) {
        explain_order(actual, &self.expected, Relation::Less)
    }
}

impl<T: PartialOrd<E> + Render, E: Render> Expectation<T> for GreaterThan<E> {
    open spec fn applicable(&self, actual: &T) -> bool {
        true
    }

    open spec fn admits(&self, actual: &T, ok: bool) -> bool {
        order_verdict(actual, &self.expected, Relation::Greater, ok)
    }

    open spec fn rejection(&self, actual: &T) -> FailureView {
        order_failure(actual, &self.expected, Relation::Greater)
    }

    fn evaluate(&self, actual: &T) -> (ok: bool) {
        compare(actual, &self.expected, Relation::Greater)
    }

    fn explain(&self, actual: &T) -> (f: AssertionFailure) {
        explain_order(actual, &self.expected, Relation::Greater)
    }
}

impl<T: PartialOrd<E> + Render, E: Render> Expectation<T> for LessOrEqual<E> {
    open spec fn applicable(&self, actual: &T) -> bool {
        true
    }

    open spec fn admits(&self, actual: &T, ok: bool) -> bool {
        order_verdict(actual, &self.expected, Relation::LessOrEqual, ok)
    }

    open spec fn rejection(&self, actual: &T) -> FailureView {
        order_failure(actual, &self.expected, Relation::LessOrEqual)
    }

    fn evaluate(&self, actual: &T) -> (ok: bool) {
        compare(actual, &self.expected, Relation::LessOrEqual)
    }

    fn explain(&self, actual: &T) -> (f: AssertionFailure) {
        explain_order(actual, &self.expected, Relation::LessOrEqual)
    }
}

impl<T: PartialOrd<E> + Render, E: Render> Expectation<T> for GreaterOrEqual<E> {
    open spec fn applicable(&self, actual: &T) -> bool {
        true
    }

    open spec fn admits(&self, actual: &T, ok: bool) -> bool {
        order_verdict(actual, &self.expected, Relation::GreaterOrEqual, ok)
    }

    open spec fn rejection(&self, actual: &T) -> FailureView {
        order_failure(actual, &self.expected, Relation::GreaterOrEqual)
    }

    fn evaluate(&self, actual: &T) -> (ok: bool) {
        compare(actual, &self.expected, Relation::GreaterOrEqual)
    }

    fn explain(&self, actual: &T) -> (f: AssertionFailure) {
        explain_order(actual, &self.expected, Relation::GreaterOrEqual)
    }
}

/// Assertions for partially ordered values.
pub trait PartialOrdAssertions<T>: Sized {
    /// Asserts that the subject is strictly less than `expected`.
    fn is_less_than<E: Render>(self, expected: E) -> Self
        where
            T: PartialOrd<E> + Render,
    ;

    /// Asserts that the subject is strictly greater than `expected`.
    fn is_greater_than<E: Render>(self, expected: E) -> Self
        where
            T: PartialOrd<E> + Render,
    ;

    /// Asserts that the subject is less than or equal to `expected`.
    fn is_less_or_equal_to<E: Render>(self, expected: E) -> Self
        where
            T: PartialOrd<E> + Render,
    ;

    /// Asserts that the subject is greater than or equal to `expected`.
    fn is_greater_or_equal_to<E: Render>(self, expected: E) -> Self
        where
            T: PartialOrd<E> + Render,
    ;

    /// Fluent name of [`PartialOrdAssertions::is_less_than`].
    fn be_less_than<E: Render>(self, expected: E) -> Self
        where
            T: PartialOrd<E> + Render,
    ;

    /// Fluent name of [`PartialOrdAssertions::is_greater_than`].
    fn be_greater_than<E: Render>(self, expected: E) -> Self
        where
            T: PartialOrd<E> + Render,
    ;

    /// Fluent name of [`PartialOrdAssertions::is_less_or_equal_to`].
    fn be_less_or_equal_to<E: Render>(self, expected: E) -> Self
        where
            T: PartialOrd<E> + Render,
    ;

    /// Fluent name of [`PartialOrdAssertions::is_greater_or_equal_to`].
    fn be_greater_or_equal_to<E: Render>(self, expected: E) -> Self
        where
            T: PartialOrd<E> + Render,
    ;
}

impl<T> PartialOrdAssertions<T> for AssertThat<T> {
    fn is_less_than<E: Render>(self, expected: E) -> (r: Self)
        where
            T: PartialOrd<E> + Render,
        ensures
            exists|ok: bool|
                order_verdict(&self.subject(), &expected, Relation::Less, ok) && self.continues_as(
                    &r,
                    ok,
                    order_failure(&self.subject(), &expected, Relation::Less),
                ),
    {
        self.apply_assertion(&LessThan::new(expected))
    }

    fn is_greater_than<E: Render>(self, expected: E) -> (r: Self)
        where
            T: PartialOrd<E> + Render,
        ensures
            exists|ok: bool|
                order_verdict(&self.subject(), &expected, Relation::Greater, ok)
                    && self.continues_as(
                    &r,
                    ok,
                    order_failure(&self.subject(), &expected, Relation::Greater),
                ),
    {
        self.apply_assertion(&GreaterThan::new(expected))
    }

    fn is_less_or_equal_to<E: Render>(self, expected: E) -> (r: Self)
        where
            T: PartialOrd<E> + Render,
        ensures
            exists|ok: bool|
                order_verdict(&self.subject(), &expected, Relation::LessOrEqual, ok)
                    && self.continues_as(
                    &r,
                    ok,
                    order_failure(&self.subject(), &expected, Relation::LessOrEqual),
                ),
    {
        self.apply_assertion(&LessOrEqual::new(expected))
    }

    fn is_greater_or_equal_to<E: Render>(self, expected: E) -> (r: Self)
        where
            T: PartialOrd<E> + Render,
        ensures
            exists|ok: bool|
                order_verdict(&self.subject(), &expected, Relation::GreaterOrEqual, ok)
                    && self.continues_as(
                    &r,
                    ok,
                    order_failure(&self.subject(), &expected, Relation::GreaterOrEqual),
                ),
    {
        self.apply_assertion(&GreaterOrEqual::new(expected))
    }

    fn be_less_than<E: Render>(self, expected: E) -> (r: Self)
        where
            T: PartialOrd<E> + Render,
        ensures
            exists|ok: bool|
                order_verdict(&self.subject(), &expected, Relation::Less, ok) && self.continues_as(
                    &r,
                    ok,
                    order_failure(&self.subject(), &expected, Relation::Less),
                ),
    {
        self.is_less_than(expected)
    }

    fn be_greater_than<E: Render>(self, expected: E) -> (r: Self)
        where
            T: PartialOrd<E> + Render,
        ensures
            exists|ok: bool|
                order_verdict(&self.subject(), &expected, Relation::Greater, ok)
                    && self.continues_as(
                    &r,
                    ok,
                    order_failure(&self.subject(), &expected, Relation::Greater),
                ),
    {
        self.is_greater_than(expected)
    }

    fn be_less_or_equal_to<E: Render>(self, expected: E) -> (r: Self)
        where
            T: PartialOrd<E> + Render,
        ensures
            exists|ok: bool|
                order_verdict(&self.subject(), &expected, Relation::LessOrEqual, ok)
                    && self.continues_as(
                    &r,
                    ok,
                    order_failure(&self.subject(), &expected, Relation::LessOrEqual),
                ),
    {
        self.is_less_or_equal_to(expected)
    }

    fn be_greater_or_equal_to<E: Render>(self, expected: E) -> (r: Self)
        where
            T: PartialOrd<E> + Render,
        ensures
            exists|ok: bool|
                order_verdict(&self.subject(), &expected, Relation::GreaterOrEqual, ok)
                    && self.continues_as(
                    &r,
                    ok,
                    order_failure(&self.subject(), &expected, Relation::GreaterOrEqual),
                ),
    {
        self.is_greater_or_equal_to(expected)
    }
}

} // verus!
