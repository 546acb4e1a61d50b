//! Assertions on a collection through borrowed iteration: the subject stays in the chain,
//! so these assertions can be chained on it.

use vstd::prelude::*;
use crate::assert_that::AssertThat;
use crate::assertions::collection::{
    check_unordered_satisfying, explain_none_satisfying, none_satisfying_failure,
    satisfaction_flags, satisfaction_matrix, satisfaction_outcomes, unordered_satisfying_failure,
};
use crate::assertions::collection::{
    Collection, add_listed, all_callable_on, any_flag, any_set, callable_on, check_exactly,
    check_unordered, check_unordered_predicates, diagonal_holds, equality_flags, equality_matrix,
    equality_matrix_of, equality_outcomes, explain_missing_element,
    explain_unexpected_element, inexact_failure, matrix_view, missing_element_failure, predicate_flags, predicate_matrix,
    predicate_outcomes, unexpected_element_failure, unmatched_col_flags, unmatched_cols,
    unordered_failure, unordered_predicates_failure, with_listed,
};
use crate::failure::{AssertionFailure, FailureKind, FailureView, failure_with, with_fact};
use crate::matching::perfectly_matchable;
use crate::render::{Render, decimal_text, render_list, render_unsigned, rendered_list};
use crate::text::{push_text, text_of};

verus! {

/// The note telling how many elements a failed check went through.
pub open spec fn consumed_note(n: int) -> Seq<char> {
    "Consumed "@ + decimal_text(n) + " element(s)."@
}

/// `f` followed by the note that all of `n` elements were gone through.
pub open spec fn after_all_consumed(f: FailureView, n: int) -> FailureView {
    with_fact(f, None, consumed_note(n))
}

/// Adds the note that `n` elements were gone through.
fn note_consumed(f: AssertionFailure, n: usize) -> (r: AssertionFailure)
    ensures
        r@ == after_all_consumed(f@, n as int),
{
    let mut note = text_of("Consumed ");
    let count = render_unsigned(n as u64);
    push_text(&mut note, count.as_str());
    push_text(&mut note, " element(s).");
    f.add_fact(None, note)
}

/// `k` is the first position of `o` whose flag is set.
pub open spec fn first_set_at(o: Seq<bool>, k: int) -> bool {
    &&& 0 <= k < o.len()
    &&& o[k]
    &&& forall|j: int| 0 <= j < k ==> !o[j]
}

/// The first position of `o` whose flag is set.
pub open spec fn first_set(o: Seq<bool>) -> int {
    choose|k: int| first_set_at(o, k)
}

/// The failure of `into_iter_does_not_contain`, given which elements equal the unexpected
/// value: the elements gone through up to the first equal one, and their number.
pub open spec fn found_unexpected_failure<T: Render, E: Render>(items: Seq<T>, unexpected: &E, o: Seq<bool>) -> FailureView {
    let n = first_set(o) + 1;
    after_all_consumed(unexpected_element_failure(items.take(n), unexpected), n)
}

/// The failure of `into_iter_does_not_contain_matching`, given which elements match: the
/// elements gone through up to the first match, and their number.
pub open spec fn found_match_failure<T: Render>(items: Seq<T>, o: Seq<bool>) -> FailureView {
    let n = first_set(o) + 1;
    after_all_consumed(
        failure_with(
            FailureKind::Membership,
            Some(rendered_list(items.take(n))),
            Some("unexpectedly contains an element matching the predicate."@),
            None,
            None,
        ),
        n,
    )
}

/// The failure of `into_iter_contains_matching`: no element matches.
pub open spec fn iterated_no_match_failure<T: Render>(items: Seq<T>) -> FailureView {
    failure_with(
        FailureKind::Membership,
        Some(rendered_list(items)),
        Some("does not contain an element matching the predicate."@),
        None,
        None,
    )
}

/// The failure of `into_iter_does_not_contain_satisfying`, given which elements satisfy the
/// assertions: the elements gone through up to the first that does, and their number.
pub open spec fn found_satisfying_failure<T: Render>(items: Seq<T>, o: Seq<bool>) -> FailureView {
    let n = first_set(o) + 1;
    after_all_consumed(
        failure_with(
            FailureKind::Membership,
            Some(rendered_list(items.take(n))),
            Some("unexpectedly contains an element satisfying the assertions."@),
            None,
            None,
        ),
        n,
    )
}

/// Explains a check that found an element it should not have: the elements up to and
/// including the first flagged one, the relation, and how many elements were gone through.
fn explain_found_early<T: Render>(items: &[T], o: &Vec<bool>, relation: &str) -> (f: AssertionFailure)
    requires
        o@.len() == items@.len(),
        any_set(o@),
    ensures
        f@ == after_all_consumed(
            failure_with(
                FailureKind::Membership,
                Some(rendered_list(items@.take(first_set(o@) + 1))),
                Some(relation@),
                None,
                None,
            ),
            first_set(o@) + 1,
        ),
{
    let k = first_flag(o);
    let n: usize = items.len();
    assert(k < n);
    let drawn = vstd::slice::slice_subrange(items, 0, k + 1);
    assert(drawn@ =~= items@.take(k + 1));
    let f = AssertionFailure::assemble(FailureKind::Membership, Some(render_list(drawn)), Some(text_of(relation)), None, None);
    note_consumed(f, k + 1)
}

/// The first position whose flag is set.
fn first_flag(o: &Vec<bool>) -> (k: usize)
    requires
        any_set(o@),
    ensures
        first_set_at(o@, k as int),
        k as int == first_set(o@),
{
    let ghost w = choose|i: int| 0 <= i < o@.len() && o@[i];
    let n: usize = o.len();
    let mut i: usize = 0;
    while !o[i]
        invariant
            0 <= i <= w < n == o@.len(),
            o@[w],
            forall|j: int| 0 <= j < i ==> !o@[j],
        decreases w - i,
    {
        i = i + 1;
    }
    assert(first_set_at(o@, i as int));
    let ghost c = first_set(o@);
    assert(first_set_at(o@, c));
    assert(c == i as int) by {
        if c < i as int {
            assert(!o@[c]);
        } else if c > i as int {
            assert(!o@[i as int]);
        }
    }
    i
}

/// The failure of `into_iter_contains_all`: the expected values found nowhere, listed.
pub open spec fn missing_all_failure<T: Render, E: Render>(items: Seq<T>, expected: Seq<E>, m: Seq<Seq<bool>>) -> FailureView {
    with_listed(
        failure_with(
            FailureKind::Membership,
            Some(rendered_list(items)),
            Some("does not contain all expected elements"@),
            Some(rendered_list(expected)),
            None,
        ),
        "Elements not found"@,
        expected,
        unmatched_cols(m, expected.len()),
    )
}

/// The failure of `into_iter_is_empty`.
/// Only the first element is drawn: it is shown, and that one element was gone through.
pub open spec fn iterated_not_empty_failure<T: Render>(items: Seq<T>) -> FailureView {
    after_all_consumed(
        failure_with(FailureKind::Length, Some(rendered_list(items.take(1))), Some("is not empty."@), None, None),
        1,
    )
}

/// The failure of `into_iter_is_not_empty`.
pub open spec fn iterated_empty_failure<T: Render>(items: Seq<T>) -> FailureView {
    failure_with(FailureKind::Length, Some(rendered_list(items)), Some("is empty."@), None, None)
}

/// The failure of `into_iter_has_length`: the expected and the observed count.
pub open spec fn iterated_length_failure<T: Render>(items: Seq<T>, expected: int) -> FailureView {
    with_fact(
        failure_with(
            FailureKind::Length,
            Some(rendered_list(items)),
            Some("does not have the correct length"@),
            Some(decimal_text(expected)),
            None,
        ),
        Some("Observed"@),
        decimal_text(items.len() as int),
    )
}

fn explain_iterated<T: Render>(items: &[T], relation: &str) -> (f: AssertionFailure)
    ensures
        f@ == failure_with(FailureKind::Length, Some(rendered_list(items@)), Some(relation@), None, None),
{
    AssertionFailure::assemble(FailureKind::Length, Some(render_list(items)), Some(text_of(relation)), None, None)
}

/// Assertions on the elements of a collection subject, which stays in the chain.
pub trait IntoIteratorAssertions<T>: Sized {
    /// The subject's elements, in order.
    spec fn subject_elements(&self) -> Seq<T>;

    /// Asserts that some element equals `expected`.
    fn into_iter_contains<E: Render>(self, expected: E) -> Self
        where
            T: PartialEq<E> + Render,
    ;

    /// Fluent name of [`IntoIteratorAssertions::into_iter_contains`].
    fn into_iter_contain<E: Render>(self, expected: E) -> Self
        where
            T: PartialEq<E> + Render,
    ;

    /// Asserts that every value of `expected` equals some element.
    fn into_iter_contains_all<E: Render>(self, expected: &[E]) -> Self
        where
            T: PartialEq<E> + Render,
    ;

    /// Fluent name of [`IntoIteratorAssertions::into_iter_contains_all`].
    fn into_iter_contain_all<E: Render>(self, expected: &[E]) -> Self
        where
            T: PartialEq<E> + Render,
    ;

    /// Asserts that some element matches `predicate`.
    fn into_iter_contains_matching<P: Fn(&T) -> bool>(self, predicate: P) -> Self
        where
            T: Render,
        requires
            callable_on(self.subject_elements(), predicate),
    ;

    /// Fluent name of [`IntoIteratorAssertions::into_iter_contains_matching`].
    fn into_iter_contain_matching<P: Fn(&T) -> bool>(self, predicate: P) -> Self
        where
            T: Render,
        requires
            callable_on(self.subject_elements(), predicate),
    ;

    /// Asserts that no element equals `unexpected`.
    fn into_iter_does_not_contain<E: Render>(self, unexpected: E) -> Self
        where
            T: PartialEq<E> + Render,
    ;

    /// Fluent name of [`IntoIteratorAssertions::into_iter_does_not_contain`].
    fn into_iter_not_contain<E: Render>(self, unexpected: E) -> Self
        where
            T: PartialEq<E> + Render,
    ;

    /// Asserts that no element matches `predicate`.
    fn into_iter_does_not_contain_matching<P: Fn(&T) -> bool>(self, predicate: P) -> Self
        where
            T: Render,
        requires
            callable_on(self.subject_elements(), predicate),
    ;

    /// Fluent name of [`IntoIteratorAssertions::into_iter_does_not_contain_matching`].
    fn into_iter_not_contain_matching<P: Fn(&T) -> bool>(self, predicate: P) -> Self
        where
            T: Render,
        requires
            callable_on(self.subject_elements(), predicate),
    ;

    /// Asserts that the elements equal `expected`, position by position, with equal lengths.
    fn into_iter_contains_exactly<E: Render>(self, expected: &[E]) -> Self
        where
            T: PartialEq<E> + Render,
    ;

    /// Fluent name of [`IntoIteratorAssertions::into_iter_contains_exactly`].
    fn into_iter_contain_exactly<E: Render>(self, expected: &[E]) -> Self
        where
            T: PartialEq<E> + Render,
    ;

    /// Asserts that the elements and `expected` can be paired one to one with equal partners.
    fn into_iter_contains_exactly_in_any_order<E: Render>(self, expected: &[E]) -> Self
        where
            T: PartialEq<E> + Render,
    ;

    /// Fluent name of [`IntoIteratorAssertions::into_iter_contains_exactly_in_any_order`].
    fn into_iter_contain_exactly_in_any_order<E: Render>(self, expected: &[E]) -> Self
        where
            T: PartialEq<E> + Render,
    ;

    /// Asserts that the elements and `predicates` can be paired one to one so that each element matches its predicate.
    fn into_iter_contains_exactly_in_any_order_matching<P: Fn(&T) -> bool>(self, predicates: &[P]) -> Self
        where
            T: Render,
        requires
            all_callable_on(self.subject_elements(), predicates@),
    ;

    /// Fluent name of [`IntoIteratorAssertions::into_iter_contains_exactly_in_any_order_matching`].
    fn into_iter_contain_exactly_in_any_order_matching<P: Fn(&T) -> bool>(self, predicates: &[P]) -> Self
        where
            T: Render,
        requires
            all_callable_on(self.subject_elements(), predicates@),
    ;

    /// Asserts that iterating the subject yields nothing.
    fn into_iter_is_empty(self) -> Self
        where
            T: Render,
    ;

    /// Fluent name of [`IntoIteratorAssertions::into_iter_is_empty`].
    fn into_iter_be_empty(self) -> Self
        where
            T: Render,
    ;

    /// Asserts that iterating the subject yields something.
    fn into_iter_is_not_empty(self) -> Self
        where
            T: Render,
    ;

    /// Fluent name of [`IntoIteratorAssertions::into_iter_is_not_empty`].
    fn into_iter_not_be_empty(self) -> Self
        where
            T: Render,
    ;

    /// Asserts that iterating the subject yields exactly `expected` elements.
    fn into_iter_has_length(self, expected: usize) -> Self
        where
            T: Render,
    ;

    /// Fluent name of [`IntoIteratorAssertions::into_iter_has_length`].
    fn into_iter_have_length(self, expected: usize) -> Self
        where
            T: Render,
    ;

    /// Former name of [`IntoIteratorAssertions::into_iter_is_empty`].
    fn into_iter_iterator_is_empty(self) -> Self
        where
            T: Render,
    ;

    /// Asserts that some element passes `assertions`, which get a capture-mode chain over it.
    fn into_iter_contains_satisfying<A: for<'x> Fn(AssertThat<&'x T>) -> AssertThat<&'x T>>(self, assertions: A) -> Self
        where
            T: Render,
        requires
            forall|c: AssertThat<&T>| call_requires(assertions, (c,)),
    ;

    /// Fluent name of [`IntoIteratorAssertions::into_iter_contains_satisfying`].
    fn into_iter_contain_satisfying<A: for<'x> Fn(AssertThat<&'x T>) -> AssertThat<&'x T>>(self, assertions: A) -> Self
        where
            T: Render,
        requires
            forall|c: AssertThat<&T>| call_requires(assertions, (c,)),
    ;

    /// Asserts that no element passes `assertions`.
    fn into_iter_does_not_contain_satisfying<A: for<'x> Fn(AssertThat<&'x T>) -> AssertThat<&'x T>>(self, assertions: A) -> Self
        where
            T: Render,
        requires
            forall|c: AssertThat<&T>| call_requires(assertions, (c,)),
    ;

    /// Fluent name of [`IntoIteratorAssertions::into_iter_does_not_contain_satisfying`].
    fn into_iter_not_contain_satisfying<A: for<'x> Fn(AssertThat<&'x T>) -> AssertThat<&'x T>>(self, assertions: A) -> Self
        where
            T: Render,
        requires
            forall|c: AssertThat<&T>| call_requires(assertions, (c,)),
    ;

    /// Asserts that the elements and `assertions` can be paired one to one so that each element passes its assertions.
    fn into_iter_contains_exactly_in_any_order_satisfying<A: for<'x> Fn(AssertThat<&'x T>) -> AssertThat<&'x T>>(self, assertions: &[A]) -> Self
        where
            T: Render,
        requires
            forall|j: int, c: AssertThat<&T>| 0 <= j < assertions@.len() ==> #[trigger] call_requires(assertions@[j], (c,)),
    ;

    /// Fluent name of [`IntoIteratorAssertions::into_iter_contains_exactly_in_any_order_satisfying`].
    fn into_iter_contain_exactly_in_any_order_satisfying<A: for<'x> Fn(AssertThat<&'x T>) -> AssertThat<&'x T>>(self, assertions: &[A]) -> Self
        where
            T: Render,
        requires
            forall|j: int, c: AssertThat<&T>| 0 <= j < assertions@.len() ==> #[trigger] call_requires(assertions@[j], (c,)),
    ;
}

impl<T, C: Collection<Item = T>> IntoIteratorAssertions<T> for AssertThat<C> {
    open spec fn subject_elements(&self) -> Seq<T> {
        self.subject().elements()
    }

    fn into_iter_contains<E: Render>(self, expected: E) -> (r: Self)
        where
            T: PartialEq<E> + Render,
        ensures
            exists|o: Seq<bool>| #![trigger equality_flags(self.subject().elements(), &expected, o)]
                equality_flags(self.subject().elements(), &expected, o) && self.continues_as(&r, any_set(o), after_all_consumed(missing_element_failure(self.subject().elements(), &expected), self.subject().elements().len() as int)),
    {
        let items = self.actual().element_slice();
        let o = equality_outcomes(items, &expected);
        proof {
            assert(equality_flags(self.subject().elements(), &expected, o@));
        }
        if any_flag(&o) {
            self.pass()
        } else {
            let f = note_consumed(explain_missing_element(items, &expected), items.len());
            self.conclude(false, f)
        }
    }

    fn into_iter_contain<E: Render>(self, expected: E) -> (r: Self)
        where
            T: PartialEq<E> + Render,
        ensures
            exists|o: Seq<bool>| #![trigger equality_flags(self.subject().elements(), &expected, o)]
                equality_flags(self.subject().elements(), &expected, o) && self.continues_as(&r, any_set(o), after_all_consumed(missing_element_failure(self.subject().elements(), &expected), self.subject().elements().len() as int)),
    {
        self.into_iter_contains(expected)
    }

    fn into_iter_contains_all<E: Render>(self, expected: &[E]) -> (r: Self)
        where
            T: PartialEq<E> + Render,
        ensures
            exists|m: Seq<Seq<bool>>| #![trigger equality_matrix(self.subject().elements(), expected@, m)]
                equality_matrix(self.subject().elements(), expected@, m) && self.continues_as(&r, !any_set(unmatched_cols(m, expected@.len())), after_all_consumed(missing_all_failure(self.subject().elements(), expected@, m), self.subject().elements().len() as int)),
    {
        let items = self.actual().element_slice();
        let m = equality_matrix_of(items, expected);
        let cols = unmatched_col_flags(&m, expected.len());
        proof {
            assert(equality_matrix(self.subject().elements(), expected@, matrix_view(m@)));
        }
        if !any_flag(&cols) {
            self.pass()
        } else {
            let f = AssertionFailure::assemble(
                FailureKind::Membership,
                Some(render_list(items)),
                Some(text_of("does not contain all expected elements")),
                Some(render_list(expected)),
                None,
            );
            let f = add_listed(f, "Elements not found", expected, &cols);
            let f = note_consumed(f, items.len());
            self.conclude(false, f)
        }
    }

    fn into_iter_contain_all<E: Render>(self, expected: &[E]) -> (r: Self)
        where
            T: PartialEq<E> + Render,
        ensures
            exists|m: Seq<Seq<bool>>| #![trigger equality_matrix(self.subject().elements(), expected@, m)]
                equality_matrix(self.subject().elements(), expected@, m) && self.continues_as(&r, !any_set(unmatched_cols(m, expected@.len())), after_all_consumed(missing_all_failure(self.subject().elements(), expected@, m), self.subject().elements().len() as int)),
    {
        self.into_iter_contains_all(expected)
    }

    fn into_iter_contains_matching<P: Fn(&T) -> bool>(self, predicate: P) -> (r: Self)
        where
            T: Render,
        ensures
            exists|o: Seq<bool>| #![trigger predicate_flags(self.subject().elements(), predicate, o)]
                predicate_flags(self.subject().elements(), predicate, o) && self.continues_as(&r, any_set(o), after_all_consumed(iterated_no_match_failure(self.subject().elements()), self.subject().elements().len() as int)),
    {
        let items = self.actual().element_slice();
        let o = predicate_outcomes(items, &predicate);
        proof {
            assert(predicate_flags(self.subject().elements(), predicate, o@));
        }
        if any_flag(&o) {
            self.pass()
        } else {
            let f = AssertionFailure::assemble(
                FailureKind::Membership,
                Some(render_list(items)),
                Some(text_of("does not contain an element matching the predicate.")),
                None,
                None,
            );
            let f = note_consumed(f, items.len());
            self.conclude(false, f)
        }
    }

    fn into_iter_contain_matching<P: Fn(&T) -> bool>(self, predicate: P) -> (r: Self)
        where
            T: Render,
        ensures
            exists|o: Seq<bool>| #![trigger predicate_flags(self.subject().elements(), predicate, o)]
                predicate_flags(self.subject().elements(), predicate, o) && self.continues_as(&r, any_set(o), after_all_consumed(iterated_no_match_failure(self.subject().elements()), self.subject().elements().len() as int)),
    {
        self.into_iter_contains_matching(predicate)
    }

    fn into_iter_does_not_contain<E: Render>(self, unexpected: E) -> (r: Self)
        where
            T: PartialEq<E> + Render,
        ensures
            exists|o: Seq<bool>| #![trigger equality_flags(self.subject().elements(), &unexpected, o)]
                equality_flags(self.subject().elements(), &unexpected, o) && self.continues_as(&r, !any_set(o), found_unexpected_failure(self.subject().elements(), &unexpected, o)),
    {
        let items = self.actual().element_slice();
        let o = equality_outcomes(items, &unexpected);
        proof {
            assert(equality_flags(self.subject().elements(), &unexpected, o@));
        }
        if !any_flag(&o) {
            self.pass()
        } else {
            let k = first_flag(&o);
            let n: usize = items.len();
            assert(k < n);
            let drawn = vstd::slice::slice_subrange(items, 0, k + 1);
            assert(drawn@ =~= items@.take(k + 1));
            let f = note_consumed(explain_unexpected_element(drawn, &unexpected), k + 1);
            self.conclude(false, f)
        }
    }

    fn into_iter_not_contain<E: Render>(self, unexpected: E) -> (r: Self)
        where
            T: PartialEq<E> + Render,
        ensures
            exists|o: Seq<bool>| #![trigger equality_flags(self.subject().elements(), &unexpected, o)]
                equality_flags(self.subject().elements(), &unexpected, o) && self.continues_as(&r, !any_set(o), found_unexpected_failure(self.subject().elements(), &unexpected, o)),
    {
        self.into_iter_does_not_contain(unexpected)
    }

    fn into_iter_does_not_contain_matching<P: Fn(&T) -> bool>(self, predicate: P) -> (r: Self)
        where
            T: Render,
        ensures
            exists|o: Seq<bool>| #![trigger predicate_flags(self.subject().elements(), predicate, o)]
                predicate_flags(self.subject().elements(), predicate, o) && self.continues_as(&r, !any_set(o), found_match_failure(self.subject().elements(), o)),
    {
        let items = self.actual().element_slice();
        let o = predicate_outcomes(items, &predicate);
        proof {
            assert(predicate_flags(self.subject().elements(), predicate, o@));
        }
        if !any_flag(&o) {
            self.pass()
        } else {
            let f = explain_found_early(items, &o, "unexpectedly contains an element matching the predicate.");
            self.conclude(false, f)
        }
    }

    fn into_iter_not_contain_matching<P: Fn(&T) -> bool>(self, predicate: P) -> (r: Self)
        where
            T: Render,
        ensures
            exists|o: Seq<bool>| #![trigger predicate_flags(self.subject().elements(), predicate, o)]
                predicate_flags(self.subject().elements(), predicate, o) && self.continues_as(&r, !any_set(o), found_match_failure(self.subject().elements(), o)),
    {
        self.into_iter_does_not_contain_matching(predicate)
    }

    fn into_iter_contains_exactly<E: Render>(self, expected: &[E]) -> (r: Self)
        where
            T: PartialEq<E> + Render,
        ensures
            exists|m: Seq<Seq<bool>>| #![trigger equality_matrix(self.subject().elements(), expected@, m)]
                equality_matrix(self.subject().elements(), expected@, m) && self.continues_as(&r, diagonal_holds(m, self.subject().elements().len(), expected@.len()), inexact_failure(self.subject().elements(), expected@, m)),
    {
        let items = self.actual().element_slice();
        let (ok, f, Ghost(m)) = check_exactly(items, expected);
        proof {
            assert(equality_matrix(self.subject().elements(), expected@, m));
        }
        self.conclude(ok, f)
    }

    fn into_iter_contain_exactly<E: Render>(self, expected: &[E]) -> (r: Self)
        where
            T: PartialEq<E> + Render,
        ensures
            exists|m: Seq<Seq<bool>>| #![trigger equality_matrix(self.subject().elements(), expected@, m)]
                equality_matrix(self.subject().elements(), expected@, m) && self.continues_as(&r, diagonal_holds(m, self.subject().elements().len(), expected@.len()), inexact_failure(self.subject().elements(), expected@, m)),
    {
        self.into_iter_contains_exactly(expected)
    }

    fn into_iter_contains_exactly_in_any_order<E: Render>(self, expected: &[E]) -> (r: Self)
        where
            T: PartialEq<E> + Render,
        ensures
            exists|m: Seq<Seq<bool>>| #![trigger equality_matrix(self.subject().elements(), expected@, m)]
                equality_matrix(self.subject().elements(), expected@, m) && self.continues_as(&r, perfectly_matchable(m, expected@.len()), unordered_failure(self.subject().elements(), expected@, m)),
    {
        let items = self.actual().element_slice();
        let (ok, f, Ghost(m)) = check_unordered(items, expected);
        proof {
            assert(equality_matrix(self.subject().elements(), expected@, m));
        }
        self.conclude(ok, f)
    }

    fn into_iter_contain_exactly_in_any_order<E: Render>(self, expected: &[E]) -> (r: Self)
        where
            T: PartialEq<E> + Render,
        ensures
            exists|m: Seq<Seq<bool>>| #![trigger equality_matrix(self.subject().elements(), expected@, m)]
                equality_matrix(self.subject().elements(), expected@, m) && self.continues_as(&r, perfectly_matchable(m, expected@.len()), unordered_failure(self.subject().elements(), expected@, m)),
    {
        self.into_iter_contains_exactly_in_any_order(expected)
    }

    fn into_iter_contains_exactly_in_any_order_matching<P: Fn(&T) -> bool>(self, predicates: &[P]) -> (r: Self)
        where
            T: Render,
        ensures
            exists|m: Seq<Seq<bool>>| #![trigger predicate_matrix(self.subject().elements(), predicates@, m)]
                predicate_matrix(self.subject().elements(), predicates@, m) && self.continues_as(&r, perfectly_matchable(m, predicates@.len()), unordered_predicates_failure(self.subject().elements(), predicates@.len(), m)),
    {
        let items = self.actual().element_slice();
        let (ok, f, Ghost(m)) = check_unordered_predicates(items, predicates);
        proof {
            assert(predicate_matrix(self.subject().elements(), predicates@, m));
        }
        self.conclude(ok, f)
    }

    fn into_iter_contain_exactly_in_any_order_matching<P: Fn(&T) -> bool>(self, predicates: &[P]) -> (r: Self)
        where
            T: Render,
        ensures
            exists|m: Seq<Seq<bool>>| #![trigger predicate_matrix(self.subject().elements(), predicates@, m)]
                predicate_matrix(self.subject().elements(), predicates@, m) && self.continues_as(&r, perfectly_matchable(m, predicates@.len()), unordered_predicates_failure(self.subject().elements(), predicates@.len(), m)),
    {
        self.into_iter_contains_exactly_in_any_order_matching(predicates)
    }

    fn into_iter_is_empty(self) -> (r: Self)
        where
            T: Render,
        ensures
            self.continues_as(&r, self.subject().elements().len() == 0, iterated_not_empty_failure(self.subject().elements())),
    {
        let items = self.actual().element_slice();
        if items.len() == 0 {
            self.pass()
        } else {
            let first = vstd::slice::slice_subrange(items, 0, 1);
            assert(first@ =~= items@.take(1));
            let f = note_consumed(explain_iterated(first, "is not empty."), 1);
            self.conclude(false, f)
        }
    }

    fn into_iter_be_empty(self) -> (r: Self)
        where
            T: Render,
        ensures
            self.continues_as(&r, self.subject().elements().len() == 0, iterated_not_empty_failure(self.subject().elements())),
    {
        self.into_iter_is_empty()
    }

    fn into_iter_is_not_empty(self) -> (r: Self)
        where
            T: Render,
        ensures
            self.continues_as(&r, self.subject().elements().len() != 0, iterated_empty_failure(self.subject().elements())),
    {
        let items = self.actual().element_slice();
        if items.len() != 0 {
            self.pass()
        } else {
            let f = explain_iterated(items, "is empty.");
            self.conclude(false, f)
        }
    }

    fn into_iter_not_be_empty(self) -> (r: Self)
        where
            T: Render,
        ensures
            self.continues_as(&r, self.subject().elements().len() != 0, iterated_empty_failure(self.subject().elements())),
    {
        self.into_iter_is_not_empty()
    }

    fn into_iter_has_length(self, expected: usize) -> (r: Self)
        where
            T: Render,
        ensures
            self.continues_as(&r, self.subject().elements().len() == expected, iterated_length_failure(self.subject().elements(), expected as int)),
    {
        let items = self.actual().element_slice();
        if items.len() == expected {
            self.pass()
        } else {
            let f = AssertionFailure::assemble(
                FailureKind::Length,
                Some(render_list(items)),
                Some(text_of("does not have the correct length")),
                Some(render_unsigned(expected as u64)),
                None,
            );
            let f = f.add_fact(Some(text_of("Observed")), render_unsigned(items.len() as u64));
            self.conclude(false, f)
        }
    }

    fn into_iter_have_length(self, expected: usize) -> (r: Self)
        where
            T: Render,
        ensures
            self.continues_as(&r, self.subject().elements().len() == expected, iterated_length_failure(self.subject().elements(), expected as int)),
    {
        self.into_iter_has_length(expected)
    }

    fn into_iter_iterator_is_empty(self) -> (r: Self)
        where
            T: Render,
        ensures
            self.continues_as(&r, self.subject().elements().len() == 0, iterated_not_empty_failure(self.subject().elements())),
    {
        self.into_iter_is_empty()
    }

    fn into_iter_contains_satisfying<A: for<'x> Fn(AssertThat<&'x T>) -> AssertThat<&'x T>>(self, assertions: A) -> (r: Self)
        where
            T: Render,
        ensures
            exists|o: Seq<bool>| #![trigger satisfaction_flags(self.subject().elements(), assertions, o)]
                satisfaction_flags(self.subject().elements(), assertions, o) && self.continues_as(&r, any_set(o), none_satisfying_failure(self.subject().elements())),
    {
        let items = self.actual().element_slice();
        let o = satisfaction_outcomes(items, &assertions);
        proof {
            assert(satisfaction_flags(self.subject().elements(), assertions, o@));
        }
        if any_flag(&o) {
            self.pass()
        } else {
            let f = explain_none_satisfying(items);
            self.conclude(false, f)
        }
    }

    fn into_iter_contain_satisfying<A: for<'x> Fn(AssertThat<&'x T>) -> AssertThat<&'x T>>(self, assertions: A) -> (r: Self)
        where
            T: Render,
        ensures
            exists|o: Seq<bool>| #![trigger satisfaction_flags(self.subject().elements(), assertions, o)]
                satisfaction_flags(self.subject().elements(), assertions, o) && self.continues_as(&r, any_set(o), none_satisfying_failure(self.subject().elements())),
    {
        self.into_iter_contains_satisfying(assertions)
    }

    fn into_iter_does_not_contain_satisfying<A: for<'x> Fn(AssertThat<&'x T>) -> AssertThat<&'x T>>(self, assertions: A) -> (r: Self)
        where
            T: Render,
        ensures
            exists|o: Seq<bool>| #![trigger satisfaction_flags(self.subject().elements(), assertions, o)]
                satisfaction_flags(self.subject().elements(), assertions, o) && self.continues_as(&r, !any_set(o), found_satisfying_failure(self.subject().elements(), o)),
    {
        let items = self.actual().element_slice();
        let o = satisfaction_outcomes(items, &assertions);
        proof {
            assert(satisfaction_flags(self.subject().elements(), assertions, o@));
        }
        if !any_flag(&o) {
            self.pass()
        } else {
            let f = explain_found_early(items, &o, "unexpectedly contains an element satisfying the assertions.");
            self.conclude(false, f)
        }
    }

    fn into_iter_not_contain_satisfying<A: for<'x> Fn(AssertThat<&'x T>) -> AssertThat<&'x T>>(self, assertions: A) -> (r: Self)
        where
            T: Render,
        ensures
            exists|o: Seq<bool>| #![trigger satisfaction_flags(self.subject().elements(), assertions, o)]
                satisfaction_flags(self.subject().elements(), assertions, o) && self.continues_as(&r, !any_set(o), found_satisfying_failure(self.subject().elements(), o)),
    {
        self.into_iter_does_not_contain_satisfying(assertions)
    }

    fn into_iter_contains_exactly_in_any_order_satisfying<A: for<'x> Fn(AssertThat<&'x T>) -> AssertThat<&'x T>>(self, assertions: &[A]) -> (r: Self)
        where
            T: Render,
        ensures
            exists|m: Seq<Seq<bool>>| #![trigger satisfaction_matrix(self.subject().elements(), assertions@, m)]
                satisfaction_matrix(self.subject().elements(), assertions@, m) && self.continues_as(&r, perfectly_matchable(m, assertions@.len()), unordered_satisfying_failure(self.subject().elements(), assertions@.len(), m)),
    {
        let items = self.actual().element_slice();
        let (ok, f, Ghost(m)) = check_unordered_satisfying(items, assertions);
        proof {
            assert(satisfaction_matrix(self.subject().elements(), assertions@, m));
        }
        self.conclude(ok, f)
    }

    fn into_iter_contain_exactly_in_any_order_satisfying<A: for<'x> Fn(AssertThat<&'x T>) -> AssertThat<&'x T>>(self, assertions: &[A]) -> (r: Self)
        where
            T: Render,
        ensures
            exists|m: Seq<Seq<bool>>| #![trigger satisfaction_matrix(self.subject().elements(), assertions@, m)]
                satisfaction_matrix(self.subject().elements(), assertions@, m) && self.continues_as(&r, perfectly_matchable(m, assertions@.len()), unordered_satisfying_failure(self.subject().elements(), assertions@.len(), m)),
    {
        self.into_iter_contains_exactly_in_any_order_satisfying(assertions)
    }
}

} // verus!
