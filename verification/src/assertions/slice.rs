//! Assertions on slice subjects.

use vstd::prelude::*;
use crate::assert_that::AssertThat;
use crate::assertions::collection::{
    all_callable_on, any_flag, any_set, all_set, callable_on, check_exactly, check_positional_predicates,
    check_unordered, check_unordered_predicates, diagonal_holds, equality_flags, equality_matrix,
    equality_outcomes, explain_matches_found, explain_missing_element, explain_no_match,
    explain_unexpected_element, inexact_failure, matches_found_failure, missing_element_failure,
    no_match_failure, positional_flags, positional_predicates_failure, positionally_callable,
    predicate_flags, predicate_matrix, predicate_outcomes, unexpected_element_failure,
    unordered_failure, unordered_predicates_failure,
};
use crate::matching::perfectly_matchable;
use crate::render::Render;

verus! {

/// Assertions for slices.
pub trait SliceAssertions<T>: Sized {
    /// The subject's elements, in order.
    spec fn subject_elements(&self) -> Seq<T>;

    /// Asserts that some element equals `expected`.
    fn contains<E: Render>(self, expected: E) -> Self
        where
            T: PartialEq<E> + Render,
    ;

    /// Asserts that at least one element matches `predicate`.
    fn contains_matching<P: Fn(&T) -> bool>(self, predicate: P) -> Self
        where
            T: Render,
        requires
            callable_on(self.subject_elements(), predicate),
    ;

    /// Asserts that no element equals `unexpected`.
    fn does_not_contain<E: Render>(self, unexpected: E) -> Self
        where
            T: PartialEq<E> + Render,
    ;

    /// Asserts that no element matches `predicate`.
    fn does_not_contain_matching<P: Fn(&T) -> bool>(self, predicate: P) -> Self
        where
            T: Render,
        requires
            callable_on(self.subject_elements(), predicate),
    ;

    /// Asserts that the elements equal `expected`, position by position, with equal lengths.
    fn contains_exactly<E: Render>(self, expected: &[E]) -> Self
        where
            T: PartialEq<E> + Render,
    ;

    /// Asserts that each element matches the predicate at its position, with as many
    /// predicates as elements.
    fn contains_exactly_matching<P: Fn(&T) -> bool>(self, predicates: &[P]) -> Self
        where
            T: Render,
        requires
            positionally_callable(self.subject_elements(), predicates@),
    ;

    /// Asserts that the elements and `expected` can be paired one to one with equal partners:
    /// order is ignored, multiplicities count.
    fn contains_exactly_in_any_order<E: Render>(self, expected: &[E]) -> Self
        where
            T: PartialEq<E> + Render,
    ;

    /// Asserts that the elements and `predicates` can be paired one to one so that each
    /// element matches its predicate.
    fn contains_exactly_in_any_order_matching<P: Fn(&T) -> bool>(self, predicates: &[P]) -> Self
        where
            T: Render,
        requires
            all_callable_on(self.subject_elements(), predicates@),
    ;

    /// Former name of [`SliceAssertions::contains_exactly_in_any_order_matching`].
    fn contains_exactly_matching_in_any_order<P: Fn(&T) -> bool>(self, predicates: &[P]) -> Self
        where
            T: Render,
        requires
            all_callable_on(self.subject_elements(), predicates@),
    ;

    /// Fluent name of [`SliceAssertions::contains`].
    fn contain<E: Render>(self, expected: E) -> Self
        where
            T: PartialEq<E> + Render,
    ;

    /// Fluent name of [`SliceAssertions::contains_matching`].
    fn contain_matching<P: Fn(&T) -> bool>(self, predicate: P) -> Self
        where
            T: Render,
        requires
            callable_on(self.subject_elements(), predicate),
    ;

    /// Fluent name of [`SliceAssertions::does_not_contain`].
    fn not_contain<E: Render>(self, unexpected: E) -> Self
        where
            T: PartialEq<E> + Render,
    ;

    /// Fluent name of [`SliceAssertions::does_not_contain_matching`].
    fn not_contain_matching<P: Fn(&T) -> bool>(self, predicate: P) -> Self
        where
            T: Render,
        requires
            callable_on(self.subject_elements(), predicate),
    ;

    /// Fluent name of [`SliceAssertions::contains_exactly`].
    fn contain_exactly<E: Render>(self, expected: &[E]) -> Self
        where
            T: PartialEq<E> + Render,
    ;

    /// Fluent name of [`SliceAssertions::contains_exactly_matching`].
    fn contain_exactly_matching<P: Fn(&T) -> bool>(self, predicates: &[P]) -> Self
        where
            T: Render,
        requires
            positionally_callable(self.subject_elements(), predicates@),
    ;

    /// Fluent name of [`SliceAssertions::contains_exactly_in_any_order`].
    fn contain_exactly_in_any_order<E: Render>(self, expected: &[E]) -> Self
        where
            T: PartialEq<E> + Render,
    ;

    /// Fluent name of [`SliceAssertions::contains_exactly_in_any_order_matching`].
    fn contain_exactly_in_any_order_matching<P: Fn(&T) -> bool>(self, predicates: &[P]) -> Self
        where
            T: Render,
        requires
            all_callable_on(self.subject_elements(), predicates@),
    ;
}

impl<'a, T> SliceAssertions<T> for AssertThat<&'a [T]> {
    open spec fn subject_elements(&self) -> Seq<T> {
        self.subject()@
    }

    fn contains<E: Render>(self, expected: E) -> (r: Self)
        where
            T: PartialEq<E> + Render,
        ensures
            exists|o: Seq<bool>|
                equality_flags(self.subject()@, &expected, o) && self.continues_as(
                    &r,
                    any_set(o),
                    missing_element_failure(self.subject()@, &expected),
                ),
    {
        let items: &[T] = *self.actual();
        let o = equality_outcomes(items, &expected);
        if any_flag(&o) {
            let ghost before = self;
            let r = self.pass();
            assert(before.continues_as(&r, any_set(o@), missing_element_failure(before.subject()@, &expected)));
            r
        } else {
            let f = explain_missing_element(items, &expected);
            self.conclude(false, f)
        }
    }

    fn contains_matching<P: Fn(&T) -> bool>(self, predicate: P) -> (r: Self)
        where
            T: Render,
        ensures
            exists|o: Seq<bool>|
                predicate_flags(self.subject()@, predicate, o) && self.continues_as(
                    &r,
                    any_set(o),
                    no_match_failure(self.subject()@),
                ),
    {
        let items: &[T] = *self.actual();
        let o = predicate_outcomes(items, &predicate);
        if any_flag(&o) {
            let ghost before = self;
            let r = self.pass();
            assert(before.continues_as(&r, any_set(o@), no_match_failure(before.subject()@)));
            r
        } else {
            let f = explain_no_match(items);
            self.conclude(false, f)
        }
    }

    fn does_not_contain<E: Render>(self, unexpected: E) -> (r: Self)
        where
            T: PartialEq<E> + Render,
        ensures
            exists|o: Seq<bool>|
                equality_flags(self.subject()@, &unexpected, o) && self.continues_as(
                    &r,
                    !any_set(o),
                    unexpected_element_failure(self.subject()@, &unexpected),
                ),
    {
        let items: &[T] = *self.actual();
        let o = equality_outcomes(items, &unexpected);
        if !any_flag(&o) {
            let ghost before = self;
            let r = self.pass();
            assert(before.continues_as(&r, !any_set(o@), unexpected_element_failure(before.subject()@, &unexpected)));
            r
        } else {
            let f = explain_unexpected_element(items, &unexpected);
            self.conclude(false, f)
        }
    }

    fn does_not_contain_matching<P: Fn(&T) -> bool>(self, predicate: P) -> (r: Self)
        where
            T: Render,
        ensures
            exists|o: Seq<bool>|
                predicate_flags(self.subject()@, predicate, o) && self.continues_as(
                    &r,
                    !any_set(o),
                    matches_found_failure(self.subject()@, o),
                ),
    {
        let items: &[T] = *self.actual();
        let o = predicate_outcomes(items, &predicate);
        if !any_flag(&o) {
            let ghost before = self;
            let r = self.pass();
            assert(before.continues_as(&r, !any_set(o@), matches_found_failure(before.subject()@, o@)));
            r
        } else {
            let f = explain_matches_found(items, &o);
            self.conclude(false, f)
        }
    }

    fn contains_exactly<E: Render>(self, expected: &[E]) -> (r: Self)
        where
            T: PartialEq<E> + Render,
        ensures
            exists|m: Seq<Seq<bool>>|
                equality_matrix(self.subject()@, expected@, m) && self.continues_as(
                    &r,
                    diagonal_holds(m, self.subject()@.len(), expected@.len()),
                    inexact_failure(self.subject()@, expected@, m),
                ),
    {
        let items: &[T] = *self.actual();
        let (ok, f, Ghost(m)) = check_exactly(items, expected);
        self.conclude(ok, f)
    }

    fn contains_exactly_matching<P: Fn(&T) -> bool>(self, predicates: &[P]) -> (r: Self)
        where
            T: Render,
        ensures
            exists|o: Seq<bool>|
                #![trigger positional_flags(self.subject()@, predicates@, o)]
                positional_flags(self.subject()@, predicates@, o) && self.continues_as(
                    &r,
                    self.subject()@.len() == predicates@.len() && all_set(o),
                    positional_predicates_failure(self.subject()@, predicates@.len(), o),
                ),
    {
        let items: &[T] = *self.actual();
        let (ok, f, Ghost(o)) = check_positional_predicates(items, predicates);
        let ghost before = self;
        assert(positional_flags(before.subject()@, predicates@, o));
        let r = self.conclude(ok, f);
        assert(before.continues_as(
            &r,
            before.subject()@.len() == predicates@.len() && all_set(o),
            positional_predicates_failure(before.subject()@, predicates@.len(), o),
        ));
        r
    }

    fn contains_exactly_in_any_order<E: Render>(self, expected: &[E]) -> (r: Self)
        where
            T: PartialEq<E> + Render,
        ensures
            exists|m: Seq<Seq<bool>>|
                equality_matrix(self.subject()@, expected@, m) && self.continues_as(
                    &r,
                    perfectly_matchable(m, expected@.len()),
                    unordered_failure(self.subject()@, expected@, m),
                ),
    {
        let items: &[T] = *self.actual();
        let (ok, f, Ghost(m)) = check_unordered(items, expected);
        self.conclude(ok, f)
    }

    fn contains_exactly_in_any_order_matching<P: Fn(&T) -> bool>(self, predicates: &[P]) -> (r: Self)
        where
            T: Render,
        ensures
            exists|m: Seq<Seq<bool>>|
                predicate_matrix(self.subject()@, predicates@, m) && self.continues_as(
                    &r,
                    perfectly_matchable(m, predicates@.len()),
                    unordered_predicates_failure(self.subject()@, predicates@.len(), m),
                ),
    {
        let items: &[T] = *self.actual();
        let (ok, f, Ghost(m)) = check_unordered_predicates(items, predicates);
        self.conclude(ok, f)
    }

    fn contains_exactly_matching_in_any_order<P: Fn(&T) -> bool>(self, predicates: &[P]) -> (r: Self)
        where
            T: Render,
        ensures
            exists|m: Seq<Seq<bool>>|
                predicate_matrix(self.subject()@, predicates@, m) && self.continues_as(
                    &r,
                    perfectly_matchable(m, predicates@.len()),
                    unordered_predicates_failure(self.subject()@, predicates@.len(), m),
                ),
    {
        self.contains_exactly_in_any_order_matching(predicates)
    }

    fn contain<E: Render>(self, expected: E) -> (r: Self)
        where
            T: PartialEq<E> + Render,
        ensures
            exists|o: Seq<bool>|
                equality_flags(self.subject()@, &expected, o) && self.continues_as(
                    &r,
                    any_set(o),
                    missing_element_failure(self.subject()@, &expected),
                ),
    {
        self.contains(expected)
    }

    fn contain_matching<P: Fn(&T) -> bool>(self, predicate: P) -> (r: Self)
        where
            T: Render,
        ensures
            exists|o: Seq<bool>|
                predicate_flags(self.subject()@, predicate, o) && self.continues_as(
                    &r,
                    any_set(o),
                    no_match_failure(self.subject()@),
                ),
    {
        self.contains_matching(predicate)
    }

    fn not_contain<E: Render>(self, unexpected: E) -> (r: Self)
        where
            T: PartialEq<E> + Render,
        ensures
            exists|o: Seq<bool>|
                equality_flags(self.subject()@, &unexpected, o) && self.continues_as(
                    &r,
                    !any_set(o),
                    unexpected_element_failure(self.subject()@, &unexpected),
                ),
    {
        self.does_not_contain(unexpected)
    }

    fn not_contain_matching<P: Fn(&T) -> bool>(self, predicate: P) -> (r: Self)
        where
            T: Render,
        ensures
            exists|o: Seq<bool>|
                predicate_flags(self.subject()@, predicate, o) && self.continues_as(
                    &r,
                    !any_set(o),
                    matches_found_failure(self.subject()@, o),
                ),
    {
        self.does_not_contain_matching(predicate)
    }

    fn contain_exactly<E: Render>(self, expected: &[E]) -> (r: Self)
        where
            T: PartialEq<E> + Render,
        ensures
            exists|m: Seq<Seq<bool>>|
                equality_matrix(self.subject()@, expected@, m) && self.continues_as(
                    &r,
                    diagonal_holds(m, self.subject()@.len(), expected@.len()),
                    inexact_failure(self.subject()@, expected@, m),
                ),
    {
        self.contains_exactly(expected)
    }

    fn contain_exactly_matching<P: Fn(&T) -> bool>(self, predicates: &[P]) -> (r: Self)
        where
            T: Render,
        ensures
            exists|o: Seq<bool>|
                #![trigger positional_flags(self.subject()@, predicates@, o)]
                positional_flags(self.subject()@, predicates@, o) && self.continues_as(
                    &r,
                    self.subject()@.len() == predicates@.len() && all_set(o),
                    positional_predicates_failure(self.subject()@, predicates@.len(), o),
                ),
    {
        self.contains_exactly_matching(predicates)
    }

    fn contain_exactly_in_any_order<E: Render>(self, expected: &[E]) -> (r: Self)
        where
            T: PartialEq<E> + Render,
        ensures
            exists|m: Seq<Seq<bool>>|
                equality_matrix(self.subject()@, expected@, m) && self.continues_as(
                    &r,
                    perfectly_matchable(m, expected@.len()),
                    unordered_failure(self.subject()@, expected@, m),
                ),
    {
        self.contains_exactly_in_any_order(expected)
    }

    fn contain_exactly_in_any_order_matching<P: Fn(&T) -> bool>(self, predicates: &[P]) -> (r: Self)
        where
            T: Render,
        ensures
            exists|m: Seq<Seq<bool>>|
                predicate_matrix(self.subject()@, predicates@, m) && self.continues_as(
                    &r,
                    perfectly_matchable(m, predicates@.len()),
                    unordered_predicates_failure(self.subject()@, predicates@.len(), m),
                ),
    {
        self.contains_exactly_in_any_order_matching(predicates)
    }
}

} // verus!
