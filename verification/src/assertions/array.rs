//! Assertions on array subjects.

use vstd::prelude::*;
use crate::assert_that::AssertThat;
use crate::assertions::collection::{
    all_callable_on, any_flag, any_set, check_exactly, check_unordered, check_unordered_predicates,
    diagonal_holds, equality_flags, equality_matrix, equality_outcomes, explain_missing_element,
    explain_unexpected_element, inexact_failure, missing_element_failure, predicate_matrix,
    unexpected_element_failure, unordered_failure, unordered_predicates_failure,
};
use crate::matching::perfectly_matchable;
use crate::render::Render;

verus! {

/// Assertions for arrays.
pub trait ArrayAssertions<T>: Sized {
    /// The subject's elements, in order.
    spec fn subject_elements(&self) -> Seq<T>;

    /// Asserts that some element equals `expected`.
    fn contains<E: Render>(self, expected: E) -> Self
        where
            T: PartialEq<E> + Render,
    ;

    /// Asserts that no element equals `unexpected`.
    fn does_not_contain<E: Render>(self, unexpected: E) -> Self
        where
            T: PartialEq<E> + Render,
    ;

    /// Asserts that the elements equal `expected`, position by position, with equal lengths.
    fn contains_exactly<E: Render>(self, expected: &[E]) -> Self
        where
            T: PartialEq<E> + Render,
    ;

    /// Asserts that the elements and `expected` can be paired one to one with equal partners.
    fn contains_exactly_in_any_order<E: Render>(self, expected: &[E]) -> Self
        where
            T: PartialEq<E> + Render,
    ;

    /// Asserts that the elements and `predicates` can be paired one to one so that each
    /// element matches its predicate.
    fn contains_exactly_matching_in_any_order<P: Fn(&T) -> bool>(self, predicates: &[P]) -> Self
        where
            T: Render,
        requires
            all_callable_on(self.subject_elements(), predicates@),
    ;

    /// Fluent name of [`ArrayAssertions::contains`].
    fn contain<E: Render>(self, expected: E) -> Self
        where
            T: PartialEq<E> + Render,
    ;

    /// Fluent name of [`ArrayAssertions::does_not_contain`].
    fn not_contain<E: Render>(self, unexpected: E) -> Self
        where
            T: PartialEq<E> + Render,
    ;

    /// Fluent name of [`ArrayAssertions::contains_exactly`].
    fn contain_exactly<E: Render>(self, expected: &[E]) -> Self
        where
            T: PartialEq<E> + Render,
    ;

    /// Fluent name of [`ArrayAssertions::contains_exactly_in_any_order`].
    fn contain_exactly_in_any_order<E: Render>(self, expected: &[E]) -> Self
        where
            T: PartialEq<E> + Render,
    ;

    /// Fluent name of [`ArrayAssertions::contains_exactly_matching_in_any_order`].
    fn contain_exactly_matching_in_any_order<P: Fn(&T) -> bool>(self, predicates: &[P]) -> Self
        where
            T: Render,
        requires
            all_callable_on(self.subject_elements(), predicates@),
    ;
}

impl<T, const N: usize> ArrayAssertions<T> for AssertThat<[T; N]> {
    open spec fn subject_elements(&self) -> Seq<T> {
        self.subject()@
    }

    fn contains<E: Render>(self, expected: E) -> (r: Self)
        where
            T: PartialEq<E> + Render,
        ensures
            exists|o: Seq<bool>|
                #![trigger equality_flags(self.subject()@, &expected, o)]
                equality_flags(self.subject()@, &expected, o) && self.continues_as(
                    &r,
                    any_set(o),
                    missing_element_failure(self.subject()@, &expected),
                ),
    {
        broadcast use vstd::array::group_array_axioms;
        let ghost before = self;
        let o = equality_outcomes(self.actual().as_slice(), &expected);
        if any_flag(&o) {
            let r = self.pass();
            assert(before.continues_as(&r, any_set(o@), missing_element_failure(before.subject()@, &expected)));
            r
        } else {
            let f = explain_missing_element(self.actual().as_slice(), &expected);
            let r = self.conclude(false, f);
            assert(equality_flags(before.subject()@, &expected, o@));
            r
        }
    }

    fn does_not_contain<E: Render>(self, unexpected: E) -> (r: Self)
        where
            T: PartialEq<E> + Render,
        ensures
            exists|o: Seq<bool>|
                #![trigger equality_flags(self.subject()@, &unexpected, o)]
                equality_flags(self.subject()@, &unexpected, o) && self.continues_as(
                    &r,
                    !any_set(o),
                    unexpected_element_failure(self.subject()@, &unexpected),
                ),
    {
        broadcast use vstd::array::group_array_axioms;
        let ghost before = self;
        let o = equality_outcomes(self.actual().as_slice(), &unexpected);
        if !any_flag(&o) {
            let r = self.pass();
            assert(before.continues_as(&r, !any_set(o@), unexpected_element_failure(before.subject()@, &unexpected)));
            r
        } else {
            let f = explain_unexpected_element(self.actual().as_slice(), &unexpected);
            let r = self.conclude(false, f);
            assert(equality_flags(before.subject()@, &unexpected, o@));
            r
        }
    }

    fn contains_exactly<E: Render>(self, expected: &[E]) -> (r: Self)
        where
            T: PartialEq<E> + Render,
        ensures
            exists|m: Seq<Seq<bool>>|
                #![trigger equality_matrix(self.subject()@, expected@, m)]
                equality_matrix(self.subject()@, expected@, m) && self.continues_as(
                    &r,
                    diagonal_holds(m, self.subject()@.len(), expected@.len()),
                    inexact_failure(self.subject()@, expected@, m),
                ),
    {
        broadcast use vstd::array::group_array_axioms;
        let ghost before = self;
        let (ok, f, Ghost(m)) = check_exactly(self.actual().as_slice(), expected);
        let r = self.conclude(ok, f);
        assert(equality_matrix(before.subject()@, expected@, m));
        r
    }

    fn contains_exactly_in_any_order<E: Render>(self, expected: &[E]) -> (r: Self)
        where
            T: PartialEq<E> + Render,
        ensures
            exists|m: Seq<Seq<bool>>|
                #![trigger equality_matrix(self.subject()@, expected@, m)]
                equality_matrix(self.subject()@, expected@, m) && self.continues_as(
                    &r,
                    perfectly_matchable(m, expected@.len()),
                    unordered_failure(self.subject()@, expected@, m),
                ),
    {
        broadcast use vstd::array::group_array_axioms;
        let ghost before = self;
        let (ok, f, Ghost(m)) = check_unordered(self.actual().as_slice(), expected);
        let r = self.conclude(ok, f);
        assert(equality_matrix(before.subject()@, expected@, m));
        r
    }

    fn contains_exactly_matching_in_any_order<P: Fn(&T) -> bool>(self, predicates: &[P]) -> (r: Self)
        where
            T: Render,
        ensures
            exists|m: Seq<Seq<bool>>|
                #![trigger predicate_matrix(self.subject()@, predicates@, m)]
                predicate_matrix(self.subject()@, predicates@, m) && self.continues_as(
                    &r,
                    perfectly_matchable(m, predicates@.len()),
                    unordered_predicates_failure(self.subject()@, predicates@.len(), m),
                ),
    {
        broadcast use vstd::array::group_array_axioms;
        let ghost before = self;
        let (ok, f, Ghost(m)) = check_unordered_predicates(self.actual().as_slice(), predicates);
        let r = self.conclude(ok, f);
        assert(predicate_matrix(before.subject()@, predicates@, m));
        r
    }

    fn contain<E: Render>(self, expected: E) -> (r: Self)
        where
            T: PartialEq<E> + Render,
        ensures
            exists|o: Seq<bool>|
                #![trigger equality_flags(self.subject()@, &expected, o)]
                equality_flags(self.subject()@, &expected, o) && self.continues_as(
                    &r,
                    any_set(o),
                    missing_element_failure(self.subject()@, &expected),
                ),
    {
        self.contains(expected)
    }

    fn not_contain<E: Render>(self, unexpected: E) -> (r: Self)
        where
            T: PartialEq<E> + Render,
        ensures
            exists|o: Seq<bool>|
                #![trigger equality_flags(self.subject()@, &unexpected, o)]
                equality_flags(self.subject()@, &unexpected, o) && self.continues_as(
                    &r,
                    !any_set(o),
                    unexpected_element_failure(self.subject()@, &unexpected),
                ),
    {
        self.does_not_contain(unexpected)
    }

    fn contain_exactly<E: Render>(self, expected: &[E]) -> (r: Self)
        where
            T: PartialEq<E> + Render,
        ensures
            exists|m: Seq<Seq<bool>>|
                #![trigger equality_matrix(self.subject()@, expected@, m)]
                equality_matrix(self.subject()@, expected@, m) && self.continues_as(
                    &r,
                    diagonal_holds(m, self.subject()@.len(), expected@.len()),
                    inexact_failure(self.subject()@, expected@, m),
                ),
    {
        self.contains_exactly(expected)
    }

    fn contain_exactly_in_any_order<E: Render>(self, expected: &[E]) -> (r: Self)
        where
            T: PartialEq<E> + Render,
        ensures
            exists|m: Seq<Seq<bool>>|
                #![trigger equality_matrix(self.subject()@, expected@, m)]
                equality_matrix(self.subject()@, expected@, m) && self.continues_as(
                    &r,
                    perfectly_matchable(m, expected@.len()),
                    unordered_failure(self.subject()@, expected@, m),
                ),
    {
        self.contains_exactly_in_any_order(expected)
    }

    fn contain_exactly_matching_in_any_order<P: Fn(&T) -> bool>(self, predicates: &[P]) -> (r: Self)
        where
            T: Render,
        ensures
            exists|m: Seq<Seq<bool>>|
                #![trigger predicate_matrix(self.subject()@, predicates@, m)]
                predicate_matrix(self.subject()@, predicates@, m) && self.continues_as(
                    &r,
                    perfectly_matchable(m, predicates@.len()),
                    unordered_predicates_failure(self.subject()@, predicates@.len(), m),
                ),
    {
        self.contains_exactly_matching_in_any_order(predicates)
    }
}

} // verus!
