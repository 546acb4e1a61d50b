//! Assertions that drive an owned iterator.
//!
//! Each assertion draws only as many elements as it needs to decide, then ends the chain on
//! `()`. Membership, prefix and contiguous-window assertions stop at the first decisive
//! element, so they also work on unbounded iterators that eventually produce a match.

use vstd::prelude::*;
use vstd::std_specs::iter::IteratorSpec;
use vstd::std_specs::cmp::PartialEqSpec;
use crate::assert_that::{AssertThat, passes, passes_with};
use crate::assertions::collection::{check_unordered_satisfying, satisfaction_matrix, unordered_satisfying_failure};
use crate::assertions::collection::all_flags;
use crate::assertions::collection::{
    all_set, check_unordered, check_unordered_predicates,
    explain_mismatches, explain_positional, positional_base, with_mismatch_notes,
    equality_matrix, positional_flags, positional_predicates_failure, predicate_matrix,
    unordered_failure, unordered_predicates_failure,
};
use crate::assertions::partial_eq::equals;
use crate::failure::{AssertionFailure, FailureKind, FailureView, failure_with, opt_text, with_fact};
use crate::matching::perfectly_matchable;
use crate::render::{Render, decimal_text, render_list, render_unsigned, rendered_list};
use crate::text::text_of;

verus! {

/// The elements of `items` from `k` on equal `expected`, position by position.
pub open spec fn window_equals<T: PartialEq<E>, E>(items: Seq<T>, k: int, expected: Seq<E>) -> bool {
    &&& 0 <= k
    &&& k + expected.len() <= items.len()
    &&& forall|j: int| 0 <= j < expected.len() ==> equals(&items[k + j], &expected[j])
}

/// Some element of `items` equals `expected`.
pub open spec fn has_equal<T: PartialEq<E>, E>(items: Seq<T>, expected: &E) -> bool {
    exists|i: int| 0 <= i < items.len() && equals(#[trigger] &items[i], expected)
}

/// `expected` occurs in `items` as a contiguous run.
pub open spec fn has_window<T: PartialEq<E>, E>(items: Seq<T>, expected: Seq<E>) -> bool {
    exists|k: int| #[trigger] window_equals(items, k, expected)
}

/// Draws up to `limit` elements, fewer only when the iterator ends first.
pub fn draw_up_to<I: Iterator>(iter: &mut I, limit: usize) -> (drawn: Vec<I::Item>)
    ensures
        drawn@.len() <= limit,
        (*old(iter)).obeys_prophetic_iter_laws() ==> {
            &&& drawn@.len() <= (*old(iter)).remaining().len()
            &&& drawn@ == (*old(iter)).remaining().take(drawn@.len() as int)
            &&& drawn@.len() < limit ==> drawn@ == (*old(iter)).remaining()
        },
{
    let mut drawn: Vec<I::Item> = Vec::new();
    let mut exhausted = false;
    while !exhausted && drawn.len() < limit
        invariant
            drawn@.len() <= limit,
            (*iter).obeys_prophetic_iter_laws() == (*old(iter)).obeys_prophetic_iter_laws(),
            (*iter).obeys_prophetic_iter_laws() ==> drawn@ + (*iter).remaining() == (*old(iter)).remaining(),
            exhausted ==> ((*iter).obeys_prophetic_iter_laws() ==> (*iter).remaining().len() == 0),
        decreases limit - drawn@.len() + if exhausted { 0int } else { 1int },
    {
        match iter.next() {
            Some(x) => {
                drawn.push(x);
            },
            None => {
                exhausted = true;
            },
        }
    }
    proof {
        if (*old(iter)).obeys_prophetic_iter_laws() {
            assert(drawn@ =~= (*old(iter)).remaining().take(drawn@.len() as int));
        }
    }
    drawn
}

/// Compares `items[offset..]` with `expected`, position by position.
pub fn window_matches<T: PartialEq<E>, E>(items: &[T], offset: usize, expected: &[E]) -> (b: bool)
    requires
        offset + expected@.len() <= items@.len(),
    ensures
        T::obeys_eq_spec() ==> b == window_equals(items@, offset as int, expected@),
{
    let total = items.len();
    let mut j: usize = 0;
    while j < expected.len()
        invariant
            j <= expected@.len(),
            total == items@.len(),
            offset + expected@.len() <= items@.len(),
            T::obeys_eq_spec() ==> forall|q: int| 0 <= q < j ==> equals(&items@[offset + q], &expected@[q]),
        decreases expected@.len() - j,
    {
        if !(items[offset + j] == expected[j]) {
            return false;
        }
        j = j + 1;
    }
    true
}

/// Draws elements until one equals `expected`, or the iterator ends; the flag tells whether
/// an equal element was drawn (then it is the last one drawn).
pub fn draw_until_equal<I: Iterator, E>(iter: &mut I, expected: &E) -> (out: (Vec<I::Item>, bool))
    where
        I::Item: PartialEq<E>,
    ensures
        out.1 ==> out.0@.len() > 0,
        <I::Item as PartialEqSpec<E>>::obeys_eq_spec() ==> {
            &&& out.1 ==> equals(&out.0@.last(), expected)
            &&& forall|i: int|
                0 <= i < out.0@.len() - (if out.1 { 1int } else { 0int }) ==> !equals(
                    #[trigger] &out.0@[i],
                    expected,
                )
        },
        (*old(iter)).obeys_prophetic_iter_laws() ==> {
            &&& out.0@.len() <= (*old(iter)).remaining().len()
            &&& out.0@ == (*old(iter)).remaining().take(out.0@.len() as int)
        },
        !out.1 ==> (out.0@.len() == usize::MAX || ((*old(iter)).obeys_prophetic_iter_laws()
            ==> out.0@ == (*old(iter)).remaining())),
{
    let mut drawn: Vec<I::Item> = Vec::new();
    let mut found = false;
    let mut exhausted = false;
    while !found && !exhausted && drawn.len() < usize::MAX
        invariant
            found ==> drawn@.len() > 0,
            found ==> !exhausted,
            <I::Item as PartialEqSpec<E>>::obeys_eq_spec() ==> {
                &&& found ==> equals(&drawn@.last(), expected)
                &&& forall|i: int|
                    0 <= i < drawn@.len() - (if found { 1int } else { 0int }) ==> !equals(
                        #[trigger] &drawn@[i],
                        expected,
                    )
            },
            (*iter).obeys_prophetic_iter_laws() == (*old(iter)).obeys_prophetic_iter_laws(),
            (*iter).obeys_prophetic_iter_laws() ==> drawn@ + (*iter).remaining() == (*old(iter)).remaining(),
            exhausted ==> ((*iter).obeys_prophetic_iter_laws() ==> (*iter).remaining().len() == 0),
        decreases usize::MAX - drawn@.len() + if found || exhausted { 0int } else { 1int },
    {
        match iter.next() {
            Some(x) => {
                let hit = x == *expected;
                drawn.push(x);
                if hit {
                    found = true;
                }
            },
            None => {
                exhausted = true;
            },
        }
    }
    proof {
        if (*old(iter)).obeys_prophetic_iter_laws() {
            assert(drawn@ =~= (*old(iter)).remaining().take(drawn@.len() as int));
        }
    }
    (drawn, found)
}

/// Draws elements until `predicate` accepts one, or the iterator ends; the flag tells
/// whether one was accepted (then it is the last one drawn).
pub fn draw_until_match<I: Iterator, P: Fn(&I::Item) -> bool>(iter: &mut I, predicate: &P) -> (out: (Vec<I::Item>, bool))
    requires
        forall|x: I::Item| call_requires(*predicate, (&x,)),
    ensures
        out.1 ==> out.0@.len() > 0,
        out.1 ==> call_ensures(*predicate, (&out.0@.last(),), true),
        forall|i: int|
            0 <= i < out.0@.len() - (if out.1 { 1int } else { 0int }) ==> call_ensures(
                *predicate,
                (#[trigger] &out.0@[i],),
                false,
            ),
        (*old(iter)).obeys_prophetic_iter_laws() ==> {
            &&& out.0@.len() <= (*old(iter)).remaining().len()
            &&& out.0@ == (*old(iter)).remaining().take(out.0@.len() as int)
        },
        !out.1 ==> (out.0@.len() == usize::MAX || ((*old(iter)).obeys_prophetic_iter_laws()
            ==> out.0@ == (*old(iter)).remaining())),
{
    let mut drawn: Vec<I::Item> = Vec::new();
    let mut found = false;
    let mut exhausted = false;
    while !found && !exhausted && drawn.len() < usize::MAX
        invariant
            forall|x: I::Item| call_requires(*predicate, (&x,)),
            found ==> drawn@.len() > 0,
            found ==> !exhausted,
            found ==> call_ensures(*predicate, (&drawn@.last(),), true),
            forall|i: int|
                0 <= i < drawn@.len() - (if found { 1int } else { 0int }) ==> call_ensures(
                    *predicate,
                    (#[trigger] &drawn@[i],),
                    false,
                ),
            (*iter).obeys_prophetic_iter_laws() == (*old(iter)).obeys_prophetic_iter_laws(),
            (*iter).obeys_prophetic_iter_laws() ==> drawn@ + (*iter).remaining() == (*old(iter)).remaining(),
            exhausted ==> ((*iter).obeys_prophetic_iter_laws() ==> (*iter).remaining().len() == 0),
        decreases usize::MAX - drawn@.len() + if found || exhausted { 0int } else { 1int },
    {
        match iter.next() {
            Some(x) => {
                let hit = predicate(&x);
                drawn.push(x);
                if hit {
                    found = true;
                }
            },
            None => {
                exhausted = true;
            },
        }
    }
    proof {
        if (*old(iter)).obeys_prophetic_iter_laws() {
            assert(drawn@ =~= (*old(iter)).remaining().take(drawn@.len() as int));
        }
    }
    (drawn, found)
}

/// The drawn elements equal `expected` at every position both have.
pub open spec fn agrees<T: PartialEq<E>, E>(drawn: Seq<T>, expected: Seq<E>) -> bool {
    forall|j: int| 0 <= j < drawn.len() && j < expected.len() ==> equals(#[trigger] &drawn[j], &expected[j])
}

/// Draws up to `limit` elements, comparing each with `expected` at its position while there
/// is one, and stops at the first that differs; the flag tells whether all drawn agreed.
pub fn draw_agreeing<I: Iterator, E>(iter: &mut I, expected: &[E], limit: usize) -> (out: (Vec<I::Item>, bool))
    where
        I::Item: PartialEq<E>,
    ensures
        out.0@.len() <= limit,
        <I::Item as PartialEqSpec<E>>::obeys_eq_spec() ==> out.1 == agrees(out.0@, expected@),
        (*old(iter)).obeys_prophetic_iter_laws() ==> {
            &&& out.0@.len() <= (*old(iter)).remaining().len()
            &&& out.0@ == (*old(iter)).remaining().take(out.0@.len() as int)
            &&& (out.1 && out.0@.len() < limit) ==> out.0@ == (*old(iter)).remaining()
        },
{
    let mut drawn: Vec<I::Item> = Vec::new();
    let mut exhausted = false;
    let mut mismatch = false;
    while !exhausted && !mismatch && drawn.len() < limit
        invariant
            drawn@.len() <= limit,
            !(exhausted && mismatch),
            <I::Item as PartialEqSpec<E>>::obeys_eq_spec() ==> (!mismatch == agrees(drawn@, expected@)),
            (*iter).obeys_prophetic_iter_laws() == (*old(iter)).obeys_prophetic_iter_laws(),
            (*iter).obeys_prophetic_iter_laws() ==> drawn@ + (*iter).remaining() == (*old(iter)).remaining(),
            exhausted ==> ((*iter).obeys_prophetic_iter_laws() ==> (*iter).remaining().len() == 0),
        decreases limit - drawn@.len() + if exhausted || mismatch { 0int } else { 1int },
    {
        match iter.next() {
            Some(x) => {
                let i = drawn.len();
                let ghost before = drawn@;
                if i < expected.len() {
                    let same = x == expected[i];
                    drawn.push(x);
                    if !same {
                        mismatch = true;
                        proof {
                            if <I::Item as PartialEqSpec<E>>::obeys_eq_spec() {
                                assert(!equals(&drawn@[i as int], &expected@[i as int]));
                            }
                        }
                    } else {
                        proof {
                            if <I::Item as PartialEqSpec<E>>::obeys_eq_spec() {
                                assert forall|j: int| 0 <= j < drawn@.len() && j < expected@.len() implies equals(#[trigger] &drawn@[j], &expected@[j]) by {
                                    if j < i {
                                        assert(drawn@[j] == before[j]);
                                    }
                                }
                            }
                        }
                    }
                } else {
                    drawn.push(x);
                    proof {
                        if <I::Item as PartialEqSpec<E>>::obeys_eq_spec() && !mismatch {
                            assert forall|j: int| 0 <= j < drawn@.len() && j < expected@.len() implies equals(#[trigger] &drawn@[j], &expected@[j]) by {
                                assert(drawn@[j] == before[j]);
                            }
                        }
                    }
                }
            },
            None => {
                exhausted = true;
            },
        }
    }
    proof {
        if (*old(iter)).obeys_prophetic_iter_laws() {
            assert(drawn@ =~= (*old(iter)).remaining().take(drawn@.len() as int));
        }
    }
    (drawn, !mismatch)
}

/// Draws up to `limit` elements, testing each with the predicate at its position while there
/// is one, and stops at the first that its predicate rejects. The flags are the predicates'
/// answers, in order.
pub fn draw_matching<I: Iterator, P: Fn(&I::Item) -> bool>(iter: &mut I, predicates: &[P], limit: usize) -> (out: (Vec<I::Item>, Vec<bool>))
    requires
        forall|x: I::Item, i: int| 0 <= i < predicates@.len() ==> #[trigger] call_requires(predicates@[i], (&x,)),
    ensures
        out.0@.len() <= limit,
        positional_flags(out.0@, predicates@, out.1@),
        !all_set(out.1@) ==> out.0@.len() == out.1@.len(),
        (*old(iter)).obeys_prophetic_iter_laws() ==> {
            &&& out.0@.len() <= (*old(iter)).remaining().len()
            &&& out.0@ == (*old(iter)).remaining().take(out.0@.len() as int)
            &&& (all_set(out.1@) && out.0@.len() < limit) ==> out.0@ == (*old(iter)).remaining()
        },
{
    let mut drawn: Vec<I::Item> = Vec::new();
    let mut o: Vec<bool> = Vec::new();
    let mut exhausted = false;
    let mut mismatch = false;
    while !exhausted && !mismatch && drawn.len() < limit
        invariant
            drawn@.len() <= limit,
            !(exhausted && mismatch),
            forall|x: I::Item, i: int| 0 <= i < predicates@.len() ==> #[trigger] call_requires(predicates@[i], (&x,)),
            positional_flags(drawn@, predicates@, o@),
            mismatch == !all_set(o@),
            mismatch ==> drawn@.len() == o@.len(),
            (*iter).obeys_prophetic_iter_laws() == (*old(iter)).obeys_prophetic_iter_laws(),
            (*iter).obeys_prophetic_iter_laws() ==> drawn@ + (*iter).remaining() == (*old(iter)).remaining(),
            exhausted ==> ((*iter).obeys_prophetic_iter_laws() ==> (*iter).remaining().len() == 0),
        decreases limit - drawn@.len() + if exhausted || mismatch { 0int } else { 1int },
    {
        match iter.next() {
            Some(x) => {
                let i = drawn.len();
                let ghost before = drawn@;
                let ghost flags = o@;
                if i < predicates.len() {
                    let p = &predicates[i];
                    assert(call_requires(predicates@[i as int], (&x,)));
                    let b = p(&x);
                    drawn.push(x);
                    o.push(b);
                    assert forall|k: int| 0 <= k < o@.len() implies call_ensures(predicates@[k], (&drawn@[k],), #[trigger] o@[k]) by {
                        if k < i {
                            assert(drawn@[k] == before[k]);
                            assert(o@[k] == flags[k]);
                        }
                    }
                    if !b {
                        mismatch = true;
                        assert(!o@[i as int]);
                    } else {
                        assert forall|k: int| 0 <= k < o@.len() implies o@[k] by {
                            if k < i {
                                assert(o@[k] == flags[k]);
                            }
                        }
                    }
                } else {
                    drawn.push(x);
                    assert forall|k: int| 0 <= k < o@.len() implies call_ensures(predicates@[k], (&drawn@[k],), #[trigger] o@[k]) by {
                        assert(drawn@[k] == before[k]);
                    }
                }
            },
            None => {
                exhausted = true;
            },
        }
    }
    proof {
        if (*old(iter)).obeys_prophetic_iter_laws() {
            assert(drawn@ =~= (*old(iter)).remaining().take(drawn@.len() as int));
        }
    }
    (drawn, o)
}

/// The failure of an iterator's `contains_exactly_matching`: where a predicate rejected its
/// element, drawing stopped there and each rejection is noted; otherwise the counts differ.
pub open spec fn drawn_positional_failure<T: Render>(drawn: Seq<T>, predicates: nat, o: Seq<bool>) -> FailureView {
    if all_set(o) {
        positional_predicates_failure(drawn, predicates, o)
    } else {
        with_mismatch_notes(positional_base(drawn), drawn, o, o.len())
    }
}

/// For sequences of the same length, agreeing at every position is a window at the start.
pub proof fn lemma_agrees_is_window<T: PartialEq<E>, E>(drawn: Seq<T>, expected: Seq<E>)
    ensures
        drawn.len() == expected.len() ==> (agrees(drawn, expected) == window_equals(drawn, 0, expected)),
{
    if drawn.len() == expected.len() {
        if agrees(drawn, expected) {
            assert forall|j: int| 0 <= j < expected.len() implies equals(&drawn[0 + j], &expected[j]) by {
                assert(equals(&drawn[j], &expected[j]));
            }
        }
        if window_equals(drawn, 0, expected) {
            assert forall|j: int| 0 <= j < drawn.len() && j < expected.len() implies equals(#[trigger] &drawn[j], &expected[j]) by {
                assert(equals(&drawn[0 + j], &expected[j]));
            }
        }
    }
}

/// Extending `items` at the end leaves the windows that lie inside `items` as they were.
pub proof fn lemma_window_survives_push<T: PartialEq<E>, E>(items: Seq<T>, x: T, k: int, expected: Seq<E>)
    requires
        0 <= k,
        k + expected.len() <= items.len(),
    ensures
        window_equals(items.push(x), k, expected) == window_equals(items, k, expected),
{
    assert forall|j: int| #![trigger expected[j]] 0 <= j < expected.len() implies items.push(x)[k + j] == items[k + j] by {}
}

/// Draws elements until the last `expected.len()` drawn equal `expected`, or the iterator
/// ends; the flag tells whether that window was found. An empty `expected` is found at once.
pub fn draw_until_window<I: Iterator, E>(iter: &mut I, expected: &[E]) -> (out: (Vec<I::Item>, bool))
    where
        I::Item: PartialEq<E>,
    ensures
        <I::Item as PartialEqSpec<E>>::obeys_eq_spec() ==> {
            &&& out.1 == has_window(out.0@, expected@)
            &&& out.1 ==> window_equals(out.0@, out.0@.len() - expected@.len(), expected@)
        },
        (*old(iter)).obeys_prophetic_iter_laws() ==> {
            &&& out.0@.len() <= (*old(iter)).remaining().len()
            &&& out.0@ == (*old(iter)).remaining().take(out.0@.len() as int)
        },
        !out.1 ==> (out.0@.len() == usize::MAX || ((*old(iter)).obeys_prophetic_iter_laws()
            ==> out.0@ == (*old(iter)).remaining())),
{
    let mut drawn: Vec<I::Item> = Vec::new();
    let n = expected.len();
    if n == 0 {
        assert(window_equals(drawn@, 0, expected@));
        return (drawn, true);
    }
    let mut found = false;
    let mut exhausted = false;
    while !found && !exhausted && drawn.len() < usize::MAX
        invariant
            n == expected@.len(),
            n > 0,
            found ==> !exhausted,
            <I::Item as PartialEqSpec<E>>::obeys_eq_spec() ==> {
                &&& found ==> window_equals(drawn@, drawn@.len() - n, expected@)
                &&& !found ==> forall|k: int| !#[trigger] window_equals(drawn@, k, expected@)
            },
            (*iter).obeys_prophetic_iter_laws() == (*old(iter)).obeys_prophetic_iter_laws(),
            (*iter).obeys_prophetic_iter_laws() ==> drawn@ + (*iter).remaining() == (*old(iter)).remaining(),
            exhausted ==> ((*iter).obeys_prophetic_iter_laws() ==> (*iter).remaining().len() == 0),
        decreases usize::MAX - drawn@.len() + if found || exhausted { 0int } else { 1int },
    {
        match iter.next() {
            Some(x) => {
                let ghost before = drawn@;
                drawn.push(x);
                proof {
                    if <I::Item as PartialEqSpec<E>>::obeys_eq_spec() {
                        assert forall|k: int| 0 <= k && k + n <= before.len() implies
                            window_equals(drawn@, k, expected@) == window_equals(before, k, expected@) by {
                            lemma_window_survives_push(before, x, k, expected@);
                        }
                    }
                }
                if drawn.len() >= n {
                    let hit = window_matches(drawn.as_slice(), drawn.len() - n, expected);
                    if hit {
                        found = true;
                    } else {
                        proof {
                            if <I::Item as PartialEqSpec<E>>::obeys_eq_spec() {
                                assert forall|k: int| !#[trigger] window_equals(drawn@, k, expected@) by {
                                    if window_equals(drawn@, k, expected@) && k + n <= before.len() {
                                        assert(window_equals(before, k, expected@));
                                    }
                                }
                            }
                        }
                    }
                } else {
                    proof {
                        if <I::Item as PartialEqSpec<E>>::obeys_eq_spec() {
                            assert forall|k: int| !#[trigger] window_equals(drawn@, k, expected@) by {
                                if window_equals(drawn@, k, expected@) {
                                    assert(window_equals(before, k, expected@));
                                }
                            }
                        }
                    }
                }
            },
            None => {
                exhausted = true;
            },
        }
    }
    proof {
        if (*old(iter)).obeys_prophetic_iter_laws() {
            assert(drawn@ =~= (*old(iter)).remaining().take(drawn@.len() as int));
        }
        if <I::Item as PartialEqSpec<E>>::obeys_eq_spec() && found {
            assert(window_equals(drawn@, drawn@.len() - n, expected@));
        }
    }
    (drawn, found)
}

/// `o[i]` holds whether the element at `offset + i` passes `assertions[i]`.
pub open spec fn positional_passes<T, A: for<'x> Fn(AssertThat<&'x T>) -> AssertThat<&'x T>>(items: Seq<T>, offset: int, assertions: Seq<A>, o: Seq<bool>) -> bool {
    &&& o.len() == assertions.len()
    &&& forall|i: int| 0 <= i < assertions.len() ==> passes_with(assertions[i], &items[offset + i], #[trigger] o[i])
}

/// When `drawn` has an element for each of `assertions` from `offset` on, `o` holds whether
/// each passes the assertions at its position.
pub open spec fn passes_from<T, A: for<'x> Fn(AssertThat<&'x T>) -> AssertThat<&'x T>>(drawn: Seq<T>, offset: int, assertions: Seq<A>, o: Seq<bool>) -> bool {
    (0 <= offset && offset + assertions.len() <= drawn.len()) ==> positional_passes(drawn, offset, assertions, o)
}

/// Runs each of `assertions` on the element at its position from `offset` on.
pub fn pass_positions<T, A: for<'x> Fn(AssertThat<&'x T>) -> AssertThat<&'x T>>(items: &[T], offset: usize, assertions: &[A]) -> (o: Vec<bool>)
    requires
        offset + assertions@.len() <= items@.len(),
        forall|j: int, c: AssertThat<&T>| 0 <= j < assertions@.len() ==> #[trigger] call_requires(assertions@[j], (c,)),
    ensures
        positional_passes(items@, offset as int, assertions@, o@),
{
    let total = items.len();
    let mut o: Vec<bool> = Vec::new();
    let mut i: usize = 0;
    while i < assertions.len()
        invariant
            i <= assertions@.len(),
            total == items@.len(),
            offset + assertions@.len() <= items@.len(),
            o@.len() == i,
            forall|j: int, c: AssertThat<&T>| 0 <= j < assertions@.len() ==> #[trigger] call_requires(assertions@[j], (c,)),
            forall|q: int| 0 <= q < i ==> passes_with(assertions@[q], &items@[offset + q], #[trigger] o@[q]),
        decreases assertions@.len() - i,
    {
        let b = passes(&items[offset + i], &assertions[i]);
        o.push(b);
        i = i + 1;
    }
    o
}

/// Draws elements until one passes `assertions`, or the iterator ends; the flag tells
/// whether one passed (then it is the last one drawn).
pub fn draw_until_passing<I: Iterator, A: for<'x> Fn(AssertThat<&'x I::Item>) -> AssertThat<&'x I::Item>>(iter: &mut I, assertions: &A) -> (out: (Vec<I::Item>, bool))
    requires
        forall|c: AssertThat<&I::Item>| call_requires(*assertions, (c,)),
    ensures
        out.1 ==> out.0@.len() > 0 && passes_with(*assertions, &out.0@.last(), true),
        forall|i: int|
            0 <= i < out.0@.len() - (if out.1 { 1int } else { 0int }) ==> passes_with(
                *assertions,
                #[trigger] &out.0@[i],
                false,
            ),
        (*old(iter)).obeys_prophetic_iter_laws() ==> {
            &&& out.0@.len() <= (*old(iter)).remaining().len()
            &&& out.0@ == (*old(iter)).remaining().take(out.0@.len() as int)
        },
        !out.1 ==> (out.0@.len() == usize::MAX || ((*old(iter)).obeys_prophetic_iter_laws()
            ==> out.0@ == (*old(iter)).remaining())),
{
    let mut drawn: Vec<I::Item> = Vec::new();
    let mut found = false;
    let mut exhausted = false;
    while !found && !exhausted && drawn.len() < usize::MAX
        invariant
            forall|c: AssertThat<&I::Item>| call_requires(*assertions, (c,)),
            found ==> drawn@.len() > 0,
            found ==> !exhausted,
            found ==> passes_with(*assertions, &drawn@.last(), true),
            forall|i: int|
                0 <= i < drawn@.len() - (if found { 1int } else { 0int }) ==> passes_with(
                    *assertions,
                    #[trigger] &drawn@[i],
                    false,
                ),
            (*iter).obeys_prophetic_iter_laws() == (*old(iter)).obeys_prophetic_iter_laws(),
            (*iter).obeys_prophetic_iter_laws() ==> drawn@ + (*iter).remaining() == (*old(iter)).remaining(),
            exhausted ==> ((*iter).obeys_prophetic_iter_laws() ==> (*iter).remaining().len() == 0),
        decreases usize::MAX - drawn@.len() + if found || exhausted { 0int } else { 1int },
    {
        match iter.next() {
            Some(x) => {
                let hit = passes(&x, assertions);
                drawn.push(x);
                if hit {
                    found = true;
                }
            },
            None => {
                exhausted = true;
            },
        }
    }
    proof {
        if (*old(iter)).obeys_prophetic_iter_laws() {
            assert(drawn@ =~= (*old(iter)).remaining().take(drawn@.len() as int));
        }
    }
    (drawn, found)
}

/// Each predicate accepted the element at its position from `k` on.
pub open spec fn window_accepted<T, P: Fn(&T) -> bool>(items: Seq<T>, k: int, predicates: Seq<P>) -> bool {
    &&& 0 <= k
    &&& k + predicates.len() <= items.len()
    &&& forall|j: int| 0 <= j < predicates.len() ==> call_ensures(predicates[j], (#[trigger] &items[k + j],), true)
}

/// Some predicate rejected the element at its position from `k` on.
pub open spec fn window_rejected<T, P: Fn(&T) -> bool>(items: Seq<T>, k: int, predicates: Seq<P>) -> bool {
    exists|j: int| 0 <= j < predicates.len() && call_ensures(predicates[j], (#[trigger] &items[k + j],), false)
}

/// Each assertion list passed on the element at its position from `k` on.
pub open spec fn window_passed<T, A: for<'x> Fn(AssertThat<&'x T>) -> AssertThat<&'x T>>(items: Seq<T>, k: int, assertions: Seq<A>) -> bool {
    &&& 0 <= k
    &&& k + assertions.len() <= items.len()
    &&& forall|j: int| 0 <= j < assertions.len() ==> passes_with(assertions[j], #[trigger] &items[k + j], true)
}

/// Some assertion list failed on the element at its position from `k` on.
pub open spec fn window_failed<T, A: for<'x> Fn(AssertThat<&'x T>) -> AssertThat<&'x T>>(items: Seq<T>, k: int, assertions: Seq<A>) -> bool {
    exists|j: int| 0 <= j < assertions.len() && passes_with(assertions[j], #[trigger] &items[k + j], false)
}

/// The outcome of searching `drawn` for a run the predicates accept: found at the end of
/// `drawn` when `ok`, and rejected at every earlier start.
pub open spec fn contiguous_match_outcome<T, P: Fn(&T) -> bool>(drawn: Seq<T>, predicates: Seq<P>, ok: bool) -> bool {
    &&& ok ==> window_accepted(drawn, drawn.len() - predicates.len(), predicates)
    &&& forall|k: int|
        0 <= k && k + predicates.len() <= drawn.len() && !(ok && k == drawn.len() - predicates.len()) ==> #[trigger] window_rejected(drawn, k, predicates)
}

/// The outcome of searching `drawn` for a run that passes the assertion lists: found at the
/// end of `drawn` when `ok`, and failed at every earlier start.
pub open spec fn contiguous_pass_outcome<T, A: for<'x> Fn(AssertThat<&'x T>) -> AssertThat<&'x T>>(drawn: Seq<T>, assertions: Seq<A>, ok: bool) -> bool {
    &&& ok ==> window_passed(drawn, drawn.len() - assertions.len(), assertions)
    &&& forall|k: int|
        0 <= k && k + assertions.len() <= drawn.len() && !(ok && k == drawn.len() - assertions.len()) ==> #[trigger] window_failed(drawn, k, assertions)
}

/// Asks each predicate about the element at its position from `offset` on, stopping at the
/// first that rejects.
pub fn window_accepts<T, P: Fn(&T) -> bool>(items: &[T], offset: usize, predicates: &[P]) -> (ok: bool)
    requires
        offset + predicates@.len() <= items@.len(),
        forall|x: T, i: int| 0 <= i < predicates@.len() ==> #[trigger] call_requires(predicates@[i], (&x,)),
    ensures
        ok ==> window_accepted(items@, offset as int, predicates@),
        !ok ==> window_rejected(items@, offset as int, predicates@),
{
    let total = items.len();
    let mut j: usize = 0;
    while j < predicates.len()
        invariant
            j <= predicates@.len(),
            total == items@.len(),
            offset + predicates@.len() <= items@.len(),
            forall|x: T, i: int| 0 <= i < predicates@.len() ==> #[trigger] call_requires(predicates@[i], (&x,)),
            forall|q: int| 0 <= q < j ==> call_ensures(predicates@[q], (#[trigger] &items@[offset + q],), true),
        decreases predicates@.len() - j,
    {
        let p = &predicates[j];
        assert(call_requires(predicates@[j as int], (&items@[offset + j],)));
        let b = p(&items[offset + j]);
        if !b {
            assert(call_ensures(predicates@[j as int], (&items@[offset + j],), false));
            return false;
        }
        j = j + 1;
    }
    true
}

/// Runs each assertion list on the element at its position from `offset` on, stopping at the
/// first that fails.
pub fn window_passes<T, A: for<'x> Fn(AssertThat<&'x T>) -> AssertThat<&'x T>>(items: &[T], offset: usize, assertions: &[A]) -> (ok: bool)
    requires
        offset + assertions@.len() <= items@.len(),
        forall|j: int, c: AssertThat<&T>| 0 <= j < assertions@.len() ==> #[trigger] call_requires(assertions@[j], (c,)),
    ensures
        ok ==> window_passed(items@, offset as int, assertions@),
        !ok ==> window_failed(items@, offset as int, assertions@),
{
    let total = items.len();
    let mut j: usize = 0;
    while j < assertions.len()
        invariant
            j <= assertions@.len(),
            total == items@.len(),
            offset + assertions@.len() <= items@.len(),
            forall|q: int, c: AssertThat<&T>| 0 <= q < assertions@.len() ==> #[trigger] call_requires(assertions@[q], (c,)),
            forall|q: int| 0 <= q < j ==> passes_with(assertions@[q], #[trigger] &items@[offset + q], true),
        decreases assertions@.len() - j,
    {
        let b = passes(&items[offset + j], &assertions[j]);
        if !b {
            assert(passes_with(assertions@[j as int], &items@[offset + j], false));
            return false;
        }
        j = j + 1;
    }
    true
}

/// Draws elements until the last `predicates.len()` drawn are accepted by the predicates at
/// their positions, or the iterator ends; the flag tells whether such a run was found. An
/// empty list of predicates is found at once.
pub fn draw_until_matching_window<I: Iterator, P: Fn(&I::Item) -> bool>(iter: &mut I, predicates: &[P]) -> (out: (Vec<I::Item>, bool))
    requires
        forall|x: I::Item, i: int| 0 <= i < predicates@.len() ==> #[trigger] call_requires(predicates@[i], (&x,)),
    ensures
        contiguous_match_outcome(out.0@, predicates@, out.1),
        (*old(iter)).obeys_prophetic_iter_laws() ==> {
            &&& out.0@.len() <= (*old(iter)).remaining().len()
            &&& out.0@ == (*old(iter)).remaining().take(out.0@.len() as int)
        },
        !out.1 ==> (out.0@.len() == usize::MAX || ((*old(iter)).obeys_prophetic_iter_laws()
            ==> out.0@ == (*old(iter)).remaining())),
{
    let mut drawn: Vec<I::Item> = Vec::new();
    let n = predicates.len();
    if n == 0 {
        return (drawn, true);
    }
    let mut found = false;
    let mut exhausted = false;
    while !found && !exhausted && drawn.len() < usize::MAX
        invariant
            n == predicates@.len(),
            n > 0,
            found ==> !exhausted,
            forall|x: I::Item, i: int| 0 <= i < predicates@.len() ==> #[trigger] call_requires(predicates@[i], (&x,)),
            contiguous_match_outcome(drawn@, predicates@, found),
            (*iter).obeys_prophetic_iter_laws() == (*old(iter)).obeys_prophetic_iter_laws(),
            (*iter).obeys_prophetic_iter_laws() ==> drawn@ + (*iter).remaining() == (*old(iter)).remaining(),
            exhausted ==> ((*iter).obeys_prophetic_iter_laws() ==> (*iter).remaining().len() == 0),
        decreases usize::MAX - drawn@.len() + if found || exhausted { 0int } else { 1int },
    {
        match iter.next() {
            Some(x) => {
                let ghost before = drawn@;
                drawn.push(x);
                proof {
                    assert forall|k: int| 0 <= k && k + n <= before.len() implies #[trigger] window_rejected(drawn@, k, predicates@) by {
                        assert(window_rejected(before, k, predicates@));
                        let j = choose|j: int| 0 <= j < n && call_ensures(predicates@[j], (#[trigger] &before[k + j],), false);
                        assert(drawn@[k + j] == before[k + j]);
                    }
                }
                if drawn.len() >= n {
                    let hit = window_accepts(drawn.as_slice(), drawn.len() - n, predicates);
                    if hit {
                        found = true;
                    }
                }
            },
            None => {
                exhausted = true;
            },
        }
    }
    proof {
        if (*old(iter)).obeys_prophetic_iter_laws() {
            assert(drawn@ =~= (*old(iter)).remaining().take(drawn@.len() as int));
        }
    }
    (drawn, found)
}

/// Draws elements until the last `assertions.len()` drawn pass the assertion lists at their
/// positions, or the iterator ends; the flag tells whether such a run was found. An empty list
/// is found at once.
pub fn draw_until_passing_window<I: Iterator, A: for<'x> Fn(AssertThat<&'x I::Item>) -> AssertThat<&'x I::Item>>(iter: &mut I, assertions: &[A]) -> (out: (Vec<I::Item>, bool))
    requires
        forall|j: int, c: AssertThat<&I::Item>| 0 <= j < assertions@.len() ==> #[trigger] call_requires(assertions@[j], (c,)),
    ensures
        contiguous_pass_outcome(out.0@, assertions@, out.1),
        (*old(iter)).obeys_prophetic_iter_laws() ==> {
            &&& out.0@.len() <= (*old(iter)).remaining().len()
            &&& out.0@ == (*old(iter)).remaining().take(out.0@.len() as int)
        },
        !out.1 ==> (out.0@.len() == usize::MAX || ((*old(iter)).obeys_prophetic_iter_laws()
            ==> out.0@ == (*old(iter)).remaining())),
{
    let mut drawn: Vec<I::Item> = Vec::new();
    let n = assertions.len();
    if n == 0 {
        return (drawn, true);
    }
    let mut found = false;
    let mut exhausted = false;
    while !found && !exhausted && drawn.len() < usize::MAX
        invariant
            n == assertions@.len(),
            n > 0,
            found ==> !exhausted,
            forall|j: int, c: AssertThat<&I::Item>| 0 <= j < assertions@.len() ==> #[trigger] call_requires(assertions@[j], (c,)),
            contiguous_pass_outcome(drawn@, assertions@, found),
            (*iter).obeys_prophetic_iter_laws() == (*old(iter)).obeys_prophetic_iter_laws(),
            (*iter).obeys_prophetic_iter_laws() ==> drawn@ + (*iter).remaining() == (*old(iter)).remaining(),
            exhausted ==> ((*iter).obeys_prophetic_iter_laws() ==> (*iter).remaining().len() == 0),
        decreases usize::MAX - drawn@.len() + if found || exhausted { 0int } else { 1int },
    {
        match iter.next() {
            Some(x) => {
                let ghost before = drawn@;
                drawn.push(x);
                proof {
                    assert forall|k: int| 0 <= k && k + n <= before.len() implies #[trigger] window_failed(drawn@, k, assertions@) by {
                        assert(window_failed(before, k, assertions@));
                        let j = choose|j: int| 0 <= j < n && passes_with(assertions@[j], #[trigger] &before[k + j], false);
                        assert(drawn@[k + j] == before[k + j]);
                    }
                }
                if drawn.len() >= n {
                    let hit = window_passes(drawn.as_slice(), drawn.len() - n, assertions);
                    if hit {
                        found = true;
                    }
                }
            },
            None => {
                exhausted = true;
            },
        }
    }
    proof {
        if (*old(iter)).obeys_prophetic_iter_laws() {
            assert(drawn@ =~= (*old(iter)).remaining().take(drawn@.len() as int));
        }
    }
    (drawn, found)
}

/// `o[i]` holds the answer of `predicates[i]` on the element at `offset + i`.
pub open spec fn positional_matches<T, P: Fn(&T) -> bool>(items: Seq<T>, offset: int, predicates: Seq<P>, o: Seq<bool>) -> bool {
    &&& o.len() == predicates.len()
    &&& forall|i: int| 0 <= i < predicates.len() ==> call_ensures(predicates[i], (&items[offset + i],), #[trigger] o[i])
}

/// When `drawn` has an element for each predicate from `offset` on, `o` holds each
/// predicate's answer on the element at its position.
pub open spec fn matches_from<T, P: Fn(&T) -> bool>(drawn: Seq<T>, offset: int, predicates: Seq<P>, o: Seq<bool>) -> bool {
    (0 <= offset && offset + predicates.len() <= drawn.len()) ==> positional_matches(drawn, offset, predicates, o)
}

/// Asks each predicate about the element at its position from `offset` on.
pub fn match_positions<T, P: Fn(&T) -> bool>(items: &[T], offset: usize, predicates: &[P]) -> (o: Vec<bool>)
    requires
        offset + predicates@.len() <= items@.len(),
        forall|x: T, i: int| 0 <= i < predicates@.len() ==> #[trigger] call_requires(predicates@[i], (&x,)),
    ensures
        positional_matches(items@, offset as int, predicates@, o@),
{
    let total = items.len();
    let mut o: Vec<bool> = Vec::new();
    let mut i: usize = 0;
    while i < predicates.len()
        invariant
            i <= predicates@.len(),
            total == items@.len(),
            offset + predicates@.len() <= items@.len(),
            o@.len() == i,
            forall|x: T, q: int| 0 <= q < predicates@.len() ==> #[trigger] call_requires(predicates@[q], (&x,)),
            forall|q: int| 0 <= q < i ==> call_ensures(predicates@[q], (&items@[offset + q],), #[trigger] o@[q]),
        decreases predicates@.len() - i,
    {
        let p = &predicates[i];
        assert(call_requires(predicates@[i as int], (&items@[offset + i],)));
        let b = p(&items[offset + i]);
        o.push(b);
        i = i + 1;
    }
    o
}

/// `ok` says whether the last drawn element is the first that passed `assertions`.
pub open spec fn passing_verdict<T, A: for<'x> Fn(AssertThat<&'x T>) -> AssertThat<&'x T>>(drawn: Seq<T>, assertions: A, ok: bool) -> bool {
    &&& ok ==> drawn.len() > 0 && passes_with(assertions, &drawn.last(), true)
    &&& forall|i: int|
        0 <= i < drawn.len() - (if ok { 1int } else { 0int }) ==> passes_with(
            assertions,
            #[trigger] &drawn[i],
            false,
        )
}

/// `f` with the number of drawn elements as a labelled fact.
pub open spec fn with_consumed(f: FailureView, n: int) -> FailureView {
    with_fact(f, Some("Consumed elements"@), decimal_text(n))
}

/// Trusted: calls `Iterator::size_hint`, the bounds the iterator's own implementation reports
/// on how many elements are left. They come from that implementation, so nothing is stated of
/// them here; contracts that depend on them speak of `call_ensures(size_hint_of, ..)`, a
/// result this function can give for the iterator, which is why it is public.
#[verifier::external_body]
pub fn size_hint_of<I: Iterator>(iter: &I) -> (hint: (usize, Option<usize>)) {
    iter.size_hint()
}

/// The failure of an exact check on an iterator that reports exactly `reported` elements left,
/// which is not the `expected_len` expected ones (shown as `expected`): nothing is consumed.
pub open spec fn known_length_failure(reported: int, expected: Seq<char>, expected_len: int) -> FailureView {
    with_fact(
        with_fact(
            with_consumed(
                failure_with(FailureKind::Membership, Some("[]"@), Some("does not contain exactly"@), Some(expected), None),
                0,
            ),
            Some("Reported length"@),
            decimal_text(reported),
        ),
        Some("Expected length"@),
        decimal_text(expected_len),
    )
}

fn explain_known_length(reported: usize, expected: String, expected_len: usize) -> (f: AssertionFailure)
    ensures
        f@ == known_length_failure(reported as int, expected@, expected_len as int),
{
    let f = AssertionFailure::assemble(
        FailureKind::Membership,
        Some(text_of("[]")),
        Some(text_of("does not contain exactly")),
        Some(expected),
        None,
    );
    let f = f.add_fact(Some(text_of("Consumed elements")), render_unsigned(0));
    let f = f.add_fact(Some(text_of("Reported length")), render_unsigned(reported as u64));
    f.add_fact(Some(text_of("Expected length")), render_unsigned(expected_len as u64))
}

/// Whether the iterator's reported size decides an exact check without drawing: the lower
/// and upper bounds agree and differ from the expected number of elements.
pub open spec fn known_length_differs(hint: (usize, Option<usize>), expected_len: int) -> bool {
    hint.1 == Some(hint.0) && hint.0 != expected_len
}

/// Decides whether the reported size `(low, high)` already rules out `expected_len` elements.
pub fn known_length_mismatch(low: usize, high: Option<usize>, expected_len: usize) -> (m: bool)
    ensures
        m == known_length_differs((low, high), expected_len as int),
{
    match high {
        Some(h) => h == low && low != expected_len,
        None => false,
    }
}

/// How many of the last drawn elements a failure shows.
pub const PREVIEW_LENGTH: usize = 16;

/// [`PREVIEW_LENGTH`], as a number.
pub open spec fn preview_length() -> int {
    16
}

/// The drawn elements a failure shows: the last [`PREVIEW_LENGTH`] of them, or all when
/// there are fewer.
pub open spec fn preview<T>(drawn: Seq<T>) -> Seq<T> {
    if drawn.len() > preview_length() {
        drawn.subrange(drawn.len() - preview_length(), drawn.len() as int)
    } else {
        drawn
    }
}

/// A failure showing the drawn elements (the last [`PREVIEW_LENGTH`] of them, with a note when
/// earlier ones are left out), how many were drawn, the relation that held and the operands.
pub open spec fn drawn_failure<T: Render>(
    drawn: Seq<T>,
    relation: Seq<char>,
    expected: Option<Seq<char>>,
    unexpected: Option<Seq<char>>,
) -> FailureView {
    let f = with_consumed(
        failure_with(FailureKind::Membership, Some(rendered_list(preview(drawn))), Some(relation), expected, unexpected),
        drawn.len() as int,
    );
    if drawn.len() > preview_length() {
        with_fact(f, None, "Actual shows the last 16 consumed elements."@)
    } else {
        f
    }
}

/// [`drawn_failure`] with the index of the last drawn element, which decided the outcome.
pub open spec fn decisive_failure<T: Render>(
    drawn: Seq<T>,
    relation: Seq<char>,
    expected: Option<Seq<char>>,
    unexpected: Option<Seq<char>>,
) -> FailureView {
    with_fact(drawn_failure(drawn, relation, expected, unexpected), Some("Decisive index"@), decimal_text(drawn.len() - 1))
}

/// `ok` is the membership verdict on `drawn`, as far as `T`'s `PartialEq` follows its
/// specification.
pub open spec fn membership_verdict<T: PartialEq<E>, E>(drawn: Seq<T>, expected: &E, ok: bool) -> bool {
    T::obeys_eq_spec() ==> ok == has_equal(drawn, expected)
}

/// `ok` says whether the last drawn element is the first that `predicate` accepted.
pub open spec fn match_verdict<T, P: Fn(&T) -> bool>(drawn: Seq<T>, predicate: P, ok: bool) -> bool {
    &&& ok ==> drawn.len() > 0 && call_ensures(predicate, (&drawn.last(),), true)
    &&& forall|i: int|
        0 <= i < drawn.len() - (if ok { 1int } else { 0int }) ==> call_ensures(
            predicate,
            (#[trigger] &drawn[i],),
            false,
        )
}

/// `ok` says whether `drawn` is exactly `expected`, position by position.
pub open spec fn exact_verdict<T: PartialEq<E>, E>(drawn: Seq<T>, expected: Seq<E>, ok: bool) -> bool {
    T::obeys_eq_spec() ==> ok == (drawn.len() == expected.len() && window_equals(drawn, 0, expected))
}

/// `ok` says whether `drawn` ends with `expected`.
pub open spec fn suffix_verdict<T: PartialEq<E>, E>(drawn: Seq<T>, expected: Seq<E>, ok: bool) -> bool {
    T::obeys_eq_spec() ==> ok == (expected.len() <= drawn.len() && window_equals(
        drawn,
        drawn.len() - expected.len(),
        expected,
    ))
}

/// `ok` says whether `expected` occurs in `drawn` as a contiguous run.
pub open spec fn window_verdict<T: PartialEq<E>, E>(drawn: Seq<T>, expected: Seq<E>, ok: bool) -> bool {
    T::obeys_eq_spec() ==> ok == has_window(drawn, expected)
}

/// How many elements the exact assertions draw against `n` expected ones: one more than
/// `n`, to see whether the iterator goes on, unless that does not fit in `usize`.
pub open spec fn exact_limit(n: nat) -> nat {
    if n < usize::MAX { n + 1 } else { n }
}

fn exact_draw_limit(n: usize) -> (l: usize)
    ensures
        l == exact_limit(n as nat),
{
    if n < usize::MAX { n + 1 } else { n }
}

fn explain_drawn<T: Render>(
    drawn: &[T],
    relation: &str,
    expected: Option<String>,
    unexpected: Option<String>,
) -> (f: AssertionFailure)
    ensures
        f@ == drawn_failure(drawn@, relation@, opt_text(expected), opt_text(unexpected)),
{
    let start = if drawn.len() > PREVIEW_LENGTH { drawn.len() - PREVIEW_LENGTH } else { 0 };
    let shown = &drawn[start..drawn.len()];
    assert(shown@ =~= preview(drawn@));
    let f = AssertionFailure::assemble(
        FailureKind::Membership,
        Some(render_list(shown)),
        Some(text_of(relation)),
        expected,
        unexpected,
    );
    let f = f.add_fact(Some(text_of("Consumed elements")), render_unsigned(drawn.len() as u64));
    if drawn.len() > PREVIEW_LENGTH {
        f.add_fact(None, text_of("Actual shows the last 16 consumed elements."))
    } else {
        f
    }
}

fn explain_decisive<T: Render>(
    drawn: &[T],
    relation: &str,
    expected: Option<String>,
    unexpected: Option<String>,
) -> (f: AssertionFailure)
    requires
        drawn@.len() > 0,
    ensures
        f@ == decisive_failure(drawn@, relation@, opt_text(expected), opt_text(unexpected)),
{
    let f = explain_drawn(drawn, relation, expected, unexpected);
    f.add_fact(Some(text_of("Decisive index")), render_unsigned((drawn.len() - 1) as u64))
}

fn add_consumed(f: AssertionFailure, n: usize) -> (r: AssertionFailure)
    ensures
        r@ == with_consumed(f@, n as int),
{
    f.add_fact(Some(text_of("Consumed elements")), render_unsigned(n as u64))
}

/// Terminal assertions on an owned iterator. Each consumes only what it needs to decide,
/// then ends the chain on `()`.
pub trait IteratorAssertions<T>: Sized {
    /// Asserts that the iterator yields an element equal to `expected`.
    fn contains<E>(self, expected: E) -> AssertThat<()>
        where
            T: PartialEq<E> + Render, E: Render,
    ;

    /// Fluent name of [`IteratorAssertions::contains`].
    fn contain<E>(self, expected: E) -> AssertThat<()>
        where
            T: PartialEq<E> + Render, E: Render,
    ;

    /// Asserts that the iterator yields no element equal to `unexpected`.
    fn does_not_contain<E>(self, unexpected: E) -> AssertThat<()>
        where
            T: PartialEq<E> + Render, E: Render,
    ;

    /// Fluent name of [`IteratorAssertions::does_not_contain`].
    fn not_contain<E>(self, unexpected: E) -> AssertThat<()>
        where
            T: PartialEq<E> + Render, E: Render,
    ;

    /// Asserts that the iterator yields an element that `predicate` accepts.
    fn contains_matching<P: Fn(&T) -> bool>(self, predicate: P) -> AssertThat<()>
        where
            T: Render,
        requires
            forall|x: T| call_requires(predicate, (&x,)),
    
    ;

    /// Fluent name of [`IteratorAssertions::contains_matching`].
    fn contain_matching<P: Fn(&T) -> bool>(self, predicate: P) -> AssertThat<()>
        where
            T: Render,
        requires
            forall|x: T| call_requires(predicate, (&x,)),
    
    ;

    /// Asserts that the iterator yields no element that `predicate` accepts.
    fn does_not_contain_matching<P: Fn(&T) -> bool>(self, predicate: P) -> AssertThat<()>
        where
            T: Render,
        requires
            forall|x: T| call_requires(predicate, (&x,)),
    
    ;

    /// Fluent name of [`IteratorAssertions::does_not_contain_matching`].
    fn not_contain_matching<P: Fn(&T) -> bool>(self, predicate: P) -> AssertThat<()>
        where
            T: Render,
        requires
            forall|x: T| call_requires(predicate, (&x,)),
    
    ;

    /// Asserts that the iterator starts with elements equal to `expected`, in order.
    fn starts_with<E>(self, expected: &[E]) -> AssertThat<()>
        where
            T: PartialEq<E> + Render, E: Render,
    ;

    /// Fluent name of [`IteratorAssertions::starts_with`].
    fn start_with<E>(self, expected: &[E]) -> AssertThat<()>
        where
            T: PartialEq<E> + Render, E: Render,
    ;

    /// Asserts that the iterator ends with elements equal to `expected`, in order.
    fn ends_with<E>(self, expected: &[E]) -> AssertThat<()>
        where
            T: PartialEq<E> + Render, E: Render,
    ;

    /// Fluent name of [`IteratorAssertions::ends_with`].
    fn end_with<E>(self, expected: &[E]) -> AssertThat<()>
        where
            T: PartialEq<E> + Render, E: Render,
    ;

    /// Asserts that `expected` occurs among the yielded elements as a contiguous run.
    fn contains_contiguous<E>(self, expected: &[E]) -> AssertThat<()>
        where
            T: PartialEq<E> + Render, E: Render,
    ;

    /// Fluent name of [`IteratorAssertions::contains_contiguous`].
    fn contain_contiguous<E>(self, expected: &[E]) -> AssertThat<()>
        where
            T: PartialEq<E> + Render, E: Render,
    ;

    /// Asserts that the iterator yields exactly `expected`, position by position.
    fn contains_exactly<E>(self, expected: &[E]) -> AssertThat<()>
        where
            T: PartialEq<E> + Render, E: Render,
    ;

    /// Fluent name of [`IteratorAssertions::contains_exactly`].
    fn contain_exactly<E>(self, expected: &[E]) -> AssertThat<()>
        where
            T: PartialEq<E> + Render, E: Render,
    ;

    /// [`IteratorAssertions::contains_exactly`], given the size `hint` that the iterator
    /// reports: a hint with equal bounds other than the expected length decides the check
    /// without drawing an element.
    fn contains_exactly_given_hint<E>(self, expected: &[E], hint: (usize, Option<usize>)) -> AssertThat<()>
        where
            T: PartialEq<E> + Render, E: Render,
    ;

    /// Asserts that the yielded elements can be paired one to one with `expected`, in any order.
    fn contains_exactly_in_any_order<E>(self, expected: &[E]) -> AssertThat<()>
        where
            T: PartialEq<E> + Render, E: Render,
    ;

    /// Fluent name of [`IteratorAssertions::contains_exactly_in_any_order`].
    fn contain_exactly_in_any_order<E>(self, expected: &[E]) -> AssertThat<()>
        where
            T: PartialEq<E> + Render, E: Render,
    ;

    /// Asserts that the iterator yields as many elements as there are predicates, each accepted by the predicate at its position.
    fn contains_exactly_matching<P: Fn(&T) -> bool>(self, predicates: &[P]) -> AssertThat<()>
        where
            T: Render,
        requires
            forall|x: T, i: int| 0 <= i < predicates@.len() ==> #[trigger] call_requires(predicates@[i], (&x,)),
    
    ;

    /// Fluent name of [`IteratorAssertions::contains_exactly_matching`].
    fn contain_exactly_matching<P: Fn(&T) -> bool>(self, predicates: &[P]) -> AssertThat<()>
        where
            T: Render,
        requires
            forall|x: T, i: int| 0 <= i < predicates@.len() ==> #[trigger] call_requires(predicates@[i], (&x,)),
    
    ;

    /// Asserts that the yielded elements can be paired one to one with the predicates that accept them, in any order.
    fn contains_exactly_in_any_order_matching<P: Fn(&T) -> bool>(self, predicates: &[P]) -> AssertThat<()>
        where
            T: Render,
        requires
            forall|x: T, i: int| 0 <= i < predicates@.len() ==> #[trigger] call_requires(predicates@[i], (&x,)),
    
    ;

    /// Fluent name of [`IteratorAssertions::contains_exactly_in_any_order_matching`].
    fn contain_exactly_in_any_order_matching<P: Fn(&T) -> bool>(self, predicates: &[P]) -> AssertThat<()>
        where
            T: Render,
        requires
            forall|x: T, i: int| 0 <= i < predicates@.len() ==> #[trigger] call_requires(predicates@[i], (&x,)),
    
    ;

    /// Asserts that the iterator yields an element that passes `assertions`, which get a capture-mode chain over it.
    fn contains_satisfying<A: for<'x> Fn(AssertThat<&'x T>) -> AssertThat<&'x T>>(self, assertions: A) -> AssertThat<()>
        where
            T: Render,
        requires
            forall|c: AssertThat<&T>| call_requires(assertions, (c,)),
    ;

    /// Fluent name of [`IteratorAssertions::contains_satisfying`].
    fn contain_satisfying<A: for<'x> Fn(AssertThat<&'x T>) -> AssertThat<&'x T>>(self, assertions: A) -> AssertThat<()>
        where
            T: Render,
        requires
            forall|c: AssertThat<&T>| call_requires(assertions, (c,)),
    ;

    /// Asserts that the iterator yields no element that passes `assertions`.
    fn does_not_contain_satisfying<A: for<'x> Fn(AssertThat<&'x T>) -> AssertThat<&'x T>>(self, assertions: A) -> AssertThat<()>
        where
            T: Render,
        requires
            forall|c: AssertThat<&T>| call_requires(assertions, (c,)),
    ;

    /// Fluent name of [`IteratorAssertions::does_not_contain_satisfying`].
    fn not_contain_satisfying<A: for<'x> Fn(AssertThat<&'x T>) -> AssertThat<&'x T>>(self, assertions: A) -> AssertThat<()>
        where
            T: Render,
        requires
            forall|c: AssertThat<&T>| call_requires(assertions, (c,)),
    ;

    /// Asserts that the first elements pass `assertions`, each the one at its position.
    fn starts_with_satisfying<A: for<'x> Fn(AssertThat<&'x T>) -> AssertThat<&'x T>>(self, assertions: &[A]) -> AssertThat<()>
        where
            T: Render,
        requires
            forall|j: int, c: AssertThat<&T>| 0 <= j < assertions@.len() ==> #[trigger] call_requires(assertions@[j], (c,)),
    ;

    /// Fluent name of [`IteratorAssertions::starts_with_satisfying`].
    fn start_with_satisfying<A: for<'x> Fn(AssertThat<&'x T>) -> AssertThat<&'x T>>(self, assertions: &[A]) -> AssertThat<()>
        where
            T: Render,
        requires
            forall|j: int, c: AssertThat<&T>| 0 <= j < assertions@.len() ==> #[trigger] call_requires(assertions@[j], (c,)),
    ;

    /// Asserts that the last elements pass `assertions`, each the one at its position.
    fn ends_with_satisfying<A: for<'x> Fn(AssertThat<&'x T>) -> AssertThat<&'x T>>(self, assertions: &[A]) -> AssertThat<()>
        where
            T: Render,
        requires
            forall|j: int, c: AssertThat<&T>| 0 <= j < assertions@.len() ==> #[trigger] call_requires(assertions@[j], (c,)),
    ;

    /// Fluent name of [`IteratorAssertions::ends_with_satisfying`].
    fn end_with_satisfying<A: for<'x> Fn(AssertThat<&'x T>) -> AssertThat<&'x T>>(self, assertions: &[A]) -> AssertThat<()>
        where
            T: Render,
        requires
            forall|j: int, c: AssertThat<&T>| 0 <= j < assertions@.len() ==> #[trigger] call_requires(assertions@[j], (c,)),
    ;

    /// Asserts that the iterator yields as many elements as there are `assertions`, each passing the one at its position.
    fn contains_exactly_satisfying<A: for<'x> Fn(AssertThat<&'x T>) -> AssertThat<&'x T>>(self, assertions: &[A]) -> AssertThat<()>
        where
            T: Render,
        requires
            forall|j: int, c: AssertThat<&T>| 0 <= j < assertions@.len() ==> #[trigger] call_requires(assertions@[j], (c,)),
    ;

    /// Fluent name of [`IteratorAssertions::contains_exactly_satisfying`].
    fn contain_exactly_satisfying<A: for<'x> Fn(AssertThat<&'x T>) -> AssertThat<&'x T>>(self, assertions: &[A]) -> AssertThat<()>
        where
            T: Render,
        requires
            forall|j: int, c: AssertThat<&T>| 0 <= j < assertions@.len() ==> #[trigger] call_requires(assertions@[j], (c,)),
    ;

    /// Asserts that the yielded elements and `assertions` can be paired one to one so that each element passes its assertions.
    fn contains_exactly_in_any_order_satisfying<A: for<'x> Fn(AssertThat<&'x T>) -> AssertThat<&'x T>>(self, assertions: &[A]) -> AssertThat<()>
        where
            T: Render,
        requires
            forall|j: int, c: AssertThat<&T>| 0 <= j < assertions@.len() ==> #[trigger] call_requires(assertions@[j], (c,)),
    ;

    /// Fluent name of [`IteratorAssertions::contains_exactly_in_any_order_satisfying`].
    fn contain_exactly_in_any_order_satisfying<A: for<'x> Fn(AssertThat<&'x T>) -> AssertThat<&'x T>>(self, assertions: &[A]) -> AssertThat<()>
        where
            T: Render,
        requires
            forall|j: int, c: AssertThat<&T>| 0 <= j < assertions@.len() ==> #[trigger] call_requires(assertions@[j], (c,)),
    ;

    /// Asserts that the first elements are accepted by the predicates at their positions.
    fn starts_with_matching<P: Fn(&T) -> bool>(self, predicates: &[P]) -> AssertThat<()>
        where
            T: Render,
        requires
            forall|x: T, i: int| 0 <= i < predicates@.len() ==> #[trigger] call_requires(predicates@[i], (&x,)),
    ;

    /// Asserts that the last elements are accepted by the predicates at their positions.
    fn ends_with_matching<P: Fn(&T) -> bool>(self, predicates: &[P]) -> AssertThat<()>
        where
            T: Render,
        requires
            forall|x: T, i: int| 0 <= i < predicates@.len() ==> #[trigger] call_requires(predicates@[i], (&x,)),
    ;

    /// Asserts that some run of consecutive elements is accepted by the predicates at their
    /// positions; drawing stops at the first such run.
    fn contains_contiguous_matching<P: Fn(&T) -> bool>(self, predicates: &[P]) -> AssertThat<()>
        where
            T: Render,
        requires
            forall|x: T, i: int| 0 <= i < predicates@.len() ==> #[trigger] call_requires(predicates@[i], (&x,)),
    ;

    /// Asserts that some run of consecutive elements passes the assertion lists at their
    /// positions; drawing stops at the first such run.
    fn contains_contiguous_satisfying<A: for<'x> Fn(AssertThat<&'x T>) -> AssertThat<&'x T>>(self, assertions: &[A]) -> AssertThat<()>
        where
            T: Render,
        requires
            forall|j: int, c: AssertThat<&T>| 0 <= j < assertions@.len() ==> #[trigger] call_requires(assertions@[j], (c,)),
    ;

    /// Fluent name of [`IteratorAssertions::starts_with_matching`].
    fn start_with_matching<P: Fn(&T) -> bool>(self, predicates: &[P]) -> AssertThat<()>
        where
            T: Render,
        requires
            forall|x: T, i: int| 0 <= i < predicates@.len() ==> #[trigger] call_requires(predicates@[i], (&x,)),
    ;

    /// Fluent name of [`IteratorAssertions::ends_with_matching`].
    fn end_with_matching<P: Fn(&T) -> bool>(self, predicates: &[P]) -> AssertThat<()>
        where
            T: Render,
        requires
            forall|x: T, i: int| 0 <= i < predicates@.len() ==> #[trigger] call_requires(predicates@[i], (&x,)),
    ;

    /// Fluent name of [`IteratorAssertions::contains_contiguous_matching`].
    fn contain_contiguous_matching<P: Fn(&T) -> bool>(self, predicates: &[P]) -> AssertThat<()>
        where
            T: Render,
        requires
            forall|x: T, i: int| 0 <= i < predicates@.len() ==> #[trigger] call_requires(predicates@[i], (&x,)),
    ;

    /// Fluent name of [`IteratorAssertions::contains_contiguous_satisfying`].
    fn contain_contiguous_satisfying<A: for<'x> Fn(AssertThat<&'x T>) -> AssertThat<&'x T>>(self, assertions: &[A]) -> AssertThat<()>
        where
            T: Render,
        requires
            forall|j: int, c: AssertThat<&T>| 0 <= j < assertions@.len() ==> #[trigger] call_requires(assertions@[j], (c,)),
    ;
}

impl<T, I: Iterator<Item = T>> IteratorAssertions<T> for AssertThat<I> {
    fn contains<E>(self, expected: E) -> (r: AssertThat<()>)
        where
            T: PartialEq<E> + Render, E: Render,
        ensures
            exists|drawn: Seq<T>, ok: bool| #![trigger membership_verdict(drawn, &expected, ok)] membership_verdict(drawn, &expected, ok) && (self.subject().obeys_prophetic_iter_laws() ==> drawn.len() <= self.subject().remaining().len() && drawn == self.subject().remaining().take(drawn.len() as int)) && (!ok ==> (drawn.len() == usize::MAX || (self.subject().obeys_prophetic_iter_laws() ==> drawn == self.subject().remaining()))) && self.ends_as(&r, ok, drawn_failure(drawn, "does not contain"@, Some(expected.rendered()), None)),
    {
        let (mut iter, this) = self.replace_actual(());
        let (drawn, found) = draw_until_equal(&mut iter, &expected);
        proof {
            assert(membership_verdict(drawn@, &expected, found));
        }
        if found {
            this.pass()
        } else {
            let f = explain_drawn(drawn.as_slice(), "does not contain", Some(expected.render()), None);
            this.conclude(false, f)
        }
    }

    fn contain<E>(self, expected: E) -> (r: AssertThat<()>)
        where
            T: PartialEq<E> + Render, E: Render,
        ensures
            exists|drawn: Seq<T>, ok: bool| #![trigger membership_verdict(drawn, &expected, ok)] membership_verdict(drawn, &expected, ok) && (self.subject().obeys_prophetic_iter_laws() ==> drawn.len() <= self.subject().remaining().len() && drawn == self.subject().remaining().take(drawn.len() as int)) && (!ok ==> (drawn.len() == usize::MAX || (self.subject().obeys_prophetic_iter_laws() ==> drawn == self.subject().remaining()))) && self.ends_as(&r, ok, drawn_failure(drawn, "does not contain"@, Some(expected.rendered()), None)),
    {
        self.contains(expected)
    }

    fn does_not_contain<E>(self, unexpected: E) -> (r: AssertThat<()>)
        where
            T: PartialEq<E> + Render, E: Render,
        ensures
            exists|drawn: Seq<T>, found: bool| #![trigger membership_verdict(drawn, &unexpected, found)] membership_verdict(drawn, &unexpected, found) && (self.subject().obeys_prophetic_iter_laws() ==> drawn.len() <= self.subject().remaining().len() && drawn == self.subject().remaining().take(drawn.len() as int)) && (!found ==> (drawn.len() == usize::MAX || (self.subject().obeys_prophetic_iter_laws() ==> drawn == self.subject().remaining()))) && self.ends_as(&r, !found, decisive_failure(drawn, "contains"@, None, Some(unexpected.rendered()))),
    {
        let (mut iter, this) = self.replace_actual(());
        let (drawn, found) = draw_until_equal(&mut iter, &unexpected);
        proof {
            assert(membership_verdict(drawn@, &unexpected, found));
        }
        if !found {
            this.pass()
        } else {
            let f = explain_decisive(drawn.as_slice(), "contains", None, Some(unexpected.render()));
            this.conclude(false, f)
        }
    }

    fn not_contain<E>(self, unexpected: E) -> (r: AssertThat<()>)
        where
            T: PartialEq<E> + Render, E: Render,
        ensures
            exists|drawn: Seq<T>, found: bool| #![trigger membership_verdict(drawn, &unexpected, found)] membership_verdict(drawn, &unexpected, found) && (self.subject().obeys_prophetic_iter_laws() ==> drawn.len() <= self.subject().remaining().len() && drawn == self.subject().remaining().take(drawn.len() as int)) && (!found ==> (drawn.len() == usize::MAX || (self.subject().obeys_prophetic_iter_laws() ==> drawn == self.subject().remaining()))) && self.ends_as(&r, !found, decisive_failure(drawn, "contains"@, None, Some(unexpected.rendered()))),
    {
        self.does_not_contain(unexpected)
    }

    fn contains_matching<P: Fn(&T) -> bool>(self, predicate: P) -> (r: AssertThat<()>)
        where
            T: Render,
        ensures
            exists|drawn: Seq<T>, ok: bool| #![trigger match_verdict(drawn, predicate, ok)] match_verdict(drawn, predicate, ok) && (self.subject().obeys_prophetic_iter_laws() ==> drawn.len() <= self.subject().remaining().len() && drawn == self.subject().remaining().take(drawn.len() as int)) && (!ok ==> (drawn.len() == usize::MAX || (self.subject().obeys_prophetic_iter_laws() ==> drawn == self.subject().remaining()))) && self.ends_as(&r, ok, drawn_failure(drawn, "does not contain a matching element"@, None, None)),
    {
        let (mut iter, this) = self.replace_actual(());
        let (drawn, found) = draw_until_match(&mut iter, &predicate);
        proof {
            assert(match_verdict(drawn@, predicate, found));
        }
        if found {
            this.pass()
        } else {
            let f = explain_drawn(drawn.as_slice(), "does not contain a matching element", None, None);
            this.conclude(false, f)
        }
    }

    fn contain_matching<P: Fn(&T) -> bool>(self, predicate: P) -> (r: AssertThat<()>)
        where
            T: Render,
        ensures
            exists|drawn: Seq<T>, ok: bool| #![trigger match_verdict(drawn, predicate, ok)] match_verdict(drawn, predicate, ok) && (self.subject().obeys_prophetic_iter_laws() ==> drawn.len() <= self.subject().remaining().len() && drawn == self.subject().remaining().take(drawn.len() as int)) && (!ok ==> (drawn.len() == usize::MAX || (self.subject().obeys_prophetic_iter_laws() ==> drawn == self.subject().remaining()))) && self.ends_as(&r, ok, drawn_failure(drawn, "does not contain a matching element"@, None, None)),
    {
        self.contains_matching(predicate)
    }

    fn does_not_contain_matching<P: Fn(&T) -> bool>(self, predicate: P) -> (r: AssertThat<()>)
        where
            T: Render,
        ensures
            exists|drawn: Seq<T>, found: bool| #![trigger match_verdict(drawn, predicate, found)] match_verdict(drawn, predicate, found) && (self.subject().obeys_prophetic_iter_laws() ==> drawn.len() <= self.subject().remaining().len() && drawn == self.subject().remaining().take(drawn.len() as int)) && (!found ==> (drawn.len() == usize::MAX || (self.subject().obeys_prophetic_iter_laws() ==> drawn == self.subject().remaining()))) && self.ends_as(&r, !found, decisive_failure(drawn, "contains an unexpected matching element"@, None, None)),
    {
        let (mut iter, this) = self.replace_actual(());
        let (drawn, found) = draw_until_match(&mut iter, &predicate);
        proof {
            assert(match_verdict(drawn@, predicate, found));
        }
        if !found {
            this.pass()
        } else {
            let f = explain_decisive(drawn.as_slice(), "contains an unexpected matching element", None, None);
            this.conclude(false, f)
        }
    }

    fn not_contain_matching<P: Fn(&T) -> bool>(self, predicate: P) -> (r: AssertThat<()>)
        where
            T: Render,
        ensures
            exists|drawn: Seq<T>, found: bool| #![trigger match_verdict(drawn, predicate, found)] match_verdict(drawn, predicate, found) && (self.subject().obeys_prophetic_iter_laws() ==> drawn.len() <= self.subject().remaining().len() && drawn == self.subject().remaining().take(drawn.len() as int)) && (!found ==> (drawn.len() == usize::MAX || (self.subject().obeys_prophetic_iter_laws() ==> drawn == self.subject().remaining()))) && self.ends_as(&r, !found, decisive_failure(drawn, "contains an unexpected matching element"@, None, None)),
    {
        self.does_not_contain_matching(predicate)
    }

    fn starts_with<E>(self, expected: &[E]) -> (r: AssertThat<()>)
        where
            T: PartialEq<E> + Render, E: Render,
        ensures
            exists|drawn: Seq<T>, ok: bool| #![trigger exact_verdict(drawn, expected@, ok)] exact_verdict(drawn, expected@, ok) && drawn.len() <= expected@.len() && (self.subject().obeys_prophetic_iter_laws() ==> drawn.len() <= self.subject().remaining().len() && drawn == self.subject().remaining().take(drawn.len() as int)) && ((T::obeys_eq_spec() && agrees(drawn, expected@) && drawn.len() < expected@.len()) ==> (self.subject().obeys_prophetic_iter_laws() ==> drawn == self.subject().remaining())) && self.ends_as(&r, ok, drawn_failure(drawn, "does not start with"@, Some(rendered_list(expected@)), None)),
    {
        let (mut iter, this) = self.replace_actual(());
        let (drawn, agreed) = draw_agreeing(&mut iter, expected, expected.len());
        let ok = agreed && drawn.len() == expected.len();
        proof {
            lemma_agrees_is_window(drawn@, expected@);
            assert(exact_verdict(drawn@, expected@, ok));
        }
        if ok {
            this.pass()
        } else {
            let f = explain_drawn(drawn.as_slice(), "does not start with", Some(render_list(expected)), None);
            this.conclude(false, f)
        }
    }

    fn start_with<E>(self, expected: &[E]) -> (r: AssertThat<()>)
        where
            T: PartialEq<E> + Render, E: Render,
        ensures
            exists|drawn: Seq<T>, ok: bool| #![trigger exact_verdict(drawn, expected@, ok)] exact_verdict(drawn, expected@, ok) && drawn.len() <= expected@.len() && (self.subject().obeys_prophetic_iter_laws() ==> drawn.len() <= self.subject().remaining().len() && drawn == self.subject().remaining().take(drawn.len() as int)) && ((T::obeys_eq_spec() && agrees(drawn, expected@) && drawn.len() < expected@.len()) ==> (self.subject().obeys_prophetic_iter_laws() ==> drawn == self.subject().remaining())) && self.ends_as(&r, ok, drawn_failure(drawn, "does not start with"@, Some(rendered_list(expected@)), None)),
    {
        self.starts_with(expected)
    }

    fn ends_with<E>(self, expected: &[E]) -> (r: AssertThat<()>)
        where
            T: PartialEq<E> + Render, E: Render,
        ensures
            exists|drawn: Seq<T>, ok: bool| #![trigger suffix_verdict(drawn, expected@, ok)] suffix_verdict(drawn, expected@, ok) && (self.subject().obeys_prophetic_iter_laws() ==> drawn.len() <= self.subject().remaining().len() && drawn == self.subject().remaining().take(drawn.len() as int)) && (expected@.len() == 0 ==> drawn.len() == 0) && ((expected@.len() > 0 && drawn.len() < usize::MAX) ==> (self.subject().obeys_prophetic_iter_laws() ==> drawn == self.subject().remaining())) && self.ends_as(&r, ok, drawn_failure(drawn, "does not end with"@, Some(rendered_list(expected@)), None)),
    {
        let (mut iter, this) = self.replace_actual(());
        let limit = if expected.len() == 0 { 0 } else { usize::MAX };
        let drawn = draw_up_to(&mut iter, limit);
        let ok = expected.len() <= drawn.len() && window_matches(
            drawn.as_slice(),
            drawn.len() - expected.len(),
            expected,
        );
        proof {
            assert(suffix_verdict(drawn@, expected@, ok));
        }
        if ok {
            this.pass()
        } else {
            let f = explain_drawn(drawn.as_slice(), "does not end with", Some(render_list(expected)), None);
            this.conclude(false, f)
        }
    }

    fn end_with<E>(self, expected: &[E]) -> (r: AssertThat<()>)
        where
            T: PartialEq<E> + Render, E: Render,
        ensures
            exists|drawn: Seq<T>, ok: bool| #![trigger suffix_verdict(drawn, expected@, ok)] suffix_verdict(drawn, expected@, ok) && (self.subject().obeys_prophetic_iter_laws() ==> drawn.len() <= self.subject().remaining().len() && drawn == self.subject().remaining().take(drawn.len() as int)) && (expected@.len() == 0 ==> drawn.len() == 0) && ((expected@.len() > 0 && drawn.len() < usize::MAX) ==> (self.subject().obeys_prophetic_iter_laws() ==> drawn == self.subject().remaining())) && self.ends_as(&r, ok, drawn_failure(drawn, "does not end with"@, Some(rendered_list(expected@)), None)),
    {
        self.ends_with(expected)
    }

    fn contains_contiguous<E>(self, expected: &[E]) -> (r: AssertThat<()>)
        where
            T: PartialEq<E> + Render, E: Render,
        ensures
            exists|drawn: Seq<T>, ok: bool| #![trigger window_verdict(drawn, expected@, ok)] window_verdict(drawn, expected@, ok) && (self.subject().obeys_prophetic_iter_laws() ==> drawn.len() <= self.subject().remaining().len() && drawn == self.subject().remaining().take(drawn.len() as int)) && (!ok ==> (drawn.len() == usize::MAX || (self.subject().obeys_prophetic_iter_laws() ==> drawn == self.subject().remaining()))) && self.ends_as(&r, ok, drawn_failure(drawn, "does not contain the contiguous subsequence"@, Some(rendered_list(expected@)), None)),
    {
        let (mut iter, this) = self.replace_actual(());
        let (drawn, found) = draw_until_window(&mut iter, expected);
        proof {
            assert(window_verdict(drawn@, expected@, found));
        }
        if found {
            this.pass()
        } else {
            let f = explain_drawn(
                drawn.as_slice(),
                "does not contain the contiguous subsequence",
                Some(render_list(expected)),
                None,
            );
            this.conclude(false, f)
        }
    }

    fn contain_contiguous<E>(self, expected: &[E]) -> (r: AssertThat<()>)
        where
            T: PartialEq<E> + Render, E: Render,
        ensures
            exists|drawn: Seq<T>, ok: bool| #![trigger window_verdict(drawn, expected@, ok)] window_verdict(drawn, expected@, ok) && (self.subject().obeys_prophetic_iter_laws() ==> drawn.len() <= self.subject().remaining().len() && drawn == self.subject().remaining().take(drawn.len() as int)) && (!ok ==> (drawn.len() == usize::MAX || (self.subject().obeys_prophetic_iter_laws() ==> drawn == self.subject().remaining()))) && self.ends_as(&r, ok, drawn_failure(drawn, "does not contain the contiguous subsequence"@, Some(rendered_list(expected@)), None)),
    {
        self.contains_contiguous(expected)
    }

    fn contains_exactly<E>(self, expected: &[E]) -> (r: AssertThat<()>)
        where
            T: PartialEq<E> + Render, E: Render,
        ensures
            exists|hint: (usize, Option<usize>)| #![trigger known_length_differs(hint, expected@.len() as int)]
                call_ensures(size_hint_of::<I>, (&self.subject(),), hint) && (known_length_differs(hint, expected@.len() as int) ==> self.ends_as(&r, false, known_length_failure(hint.0 as int, rendered_list(expected@), expected@.len() as int))) && (!known_length_differs(hint, expected@.len() as int) ==> (exists|drawn: Seq<T>, ok: bool| #![trigger exact_verdict(drawn, expected@, ok)] exact_verdict(drawn, expected@, ok) && (ok ==> drawn.len() == expected@.len()) && drawn.len() <= exact_limit(expected@.len()) && (self.subject().obeys_prophetic_iter_laws() ==> drawn.len() <= self.subject().remaining().len() && drawn == self.subject().remaining().take(drawn.len() as int)) && ((T::obeys_eq_spec() && agrees(drawn, expected@) && drawn.len() < exact_limit(expected@.len())) ==> (self.subject().obeys_prophetic_iter_laws() ==> drawn == self.subject().remaining())) && self.ends_as(&r, ok, drawn_failure(drawn, "does not contain exactly"@, Some(rendered_list(expected@)), None)))),
    {
        let reported = size_hint_of::<I>;
        let hint = reported(self.actual());
        self.contains_exactly_given_hint(expected, hint)
    }

    fn contain_exactly<E>(self, expected: &[E]) -> (r: AssertThat<()>)
        where
            T: PartialEq<E> + Render, E: Render,
        ensures
            exists|hint: (usize, Option<usize>)| #![trigger known_length_differs(hint, expected@.len() as int)]
                call_ensures(size_hint_of::<I>, (&self.subject(),), hint) && (known_length_differs(hint, expected@.len() as int) ==> self.ends_as(&r, false, known_length_failure(hint.0 as int, rendered_list(expected@), expected@.len() as int))) && (!known_length_differs(hint, expected@.len() as int) ==> (exists|drawn: Seq<T>, ok: bool| #![trigger exact_verdict(drawn, expected@, ok)] exact_verdict(drawn, expected@, ok) && (ok ==> drawn.len() == expected@.len()) && drawn.len() <= exact_limit(expected@.len()) && (self.subject().obeys_prophetic_iter_laws() ==> drawn.len() <= self.subject().remaining().len() && drawn == self.subject().remaining().take(drawn.len() as int)) && ((T::obeys_eq_spec() && agrees(drawn, expected@) && drawn.len() < exact_limit(expected@.len())) ==> (self.subject().obeys_prophetic_iter_laws() ==> drawn == self.subject().remaining())) && self.ends_as(&r, ok, drawn_failure(drawn, "does not contain exactly"@, Some(rendered_list(expected@)), None)))),
    {
        self.contains_exactly(expected)
    }

    fn contains_exactly_given_hint<E>(self, expected: &[E], hint: (usize, Option<usize>)) -> (r: AssertThat<()>)
        where
            T: PartialEq<E> + Render, E: Render,
        ensures
            known_length_differs(hint, expected@.len() as int) ==> self.ends_as(&r, false, known_length_failure(hint.0 as int, rendered_list(expected@), expected@.len() as int)),
            !known_length_differs(hint, expected@.len() as int) ==> (exists|drawn: Seq<T>, ok: bool| #![trigger exact_verdict(drawn, expected@, ok)] exact_verdict(drawn, expected@, ok) && (ok ==> drawn.len() == expected@.len()) && drawn.len() <= exact_limit(expected@.len()) && (self.subject().obeys_prophetic_iter_laws() ==> drawn.len() <= self.subject().remaining().len() && drawn == self.subject().remaining().take(drawn.len() as int)) && ((T::obeys_eq_spec() && agrees(drawn, expected@) && drawn.len() < exact_limit(expected@.len())) ==> (self.subject().obeys_prophetic_iter_laws() ==> drawn == self.subject().remaining())) && self.ends_as(&r, ok, drawn_failure(drawn, "does not contain exactly"@, Some(rendered_list(expected@)), None))),
    {
        let (mut iter, this) = self.replace_actual(());
        if known_length_mismatch(hint.0, hint.1, expected.len()) {
            let f = explain_known_length(hint.0, render_list(expected), expected.len());
            return this.conclude(false, f);
        }
        let (drawn, agreed) = draw_agreeing(&mut iter, expected, exact_draw_limit(expected.len()));
        let ok = agreed && drawn.len() == expected.len();
        proof {
            lemma_agrees_is_window(drawn@, expected@);
            assert(exact_verdict(drawn@, expected@, ok));
        }
        if ok {
            this.pass()
        } else {
            let f = explain_drawn(
                drawn.as_slice(),
                "does not contain exactly",
                Some(render_list(expected)),
                None,
            );
            this.conclude(false, f)
        }
    }

    fn contains_exactly_in_any_order<E>(self, expected: &[E]) -> (r: AssertThat<()>)
        where
            T: PartialEq<E> + Render, E: Render,
        ensures
            exists|drawn: Seq<T>, m: Seq<Seq<bool>>| #![trigger equality_matrix(drawn, expected@, m)] equality_matrix(drawn, expected@, m) && drawn.len() <= exact_limit(expected@.len()) && (self.subject().obeys_prophetic_iter_laws() ==> drawn.len() <= self.subject().remaining().len() && drawn == self.subject().remaining().take(drawn.len() as int)) && (drawn.len() < exact_limit(expected@.len()) ==> (self.subject().obeys_prophetic_iter_laws() ==> drawn == self.subject().remaining())) && self.ends_as(&r, perfectly_matchable(m, expected@.len()), with_consumed(unordered_failure(drawn, expected@, m), drawn.len() as int)),
    {
        let (mut iter, this) = self.replace_actual(());
        let drawn = draw_up_to(&mut iter, exact_draw_limit(expected.len()));
        let (ok, f, Ghost(m)) = check_unordered(drawn.as_slice(), expected);
        proof {
            assert(equality_matrix(drawn@, expected@, m));
        }
        if ok {
            this.pass()
        } else {
            let f = add_consumed(f, drawn.len());
            this.conclude(false, f)
        }
    }

    fn contain_exactly_in_any_order<E>(self, expected: &[E]) -> (r: AssertThat<()>)
        where
            T: PartialEq<E> + Render, E: Render,
        ensures
            exists|drawn: Seq<T>, m: Seq<Seq<bool>>| #![trigger equality_matrix(drawn, expected@, m)] equality_matrix(drawn, expected@, m) && drawn.len() <= exact_limit(expected@.len()) && (self.subject().obeys_prophetic_iter_laws() ==> drawn.len() <= self.subject().remaining().len() && drawn == self.subject().remaining().take(drawn.len() as int)) && (drawn.len() < exact_limit(expected@.len()) ==> (self.subject().obeys_prophetic_iter_laws() ==> drawn == self.subject().remaining())) && self.ends_as(&r, perfectly_matchable(m, expected@.len()), with_consumed(unordered_failure(drawn, expected@, m), drawn.len() as int)),
    {
        self.contains_exactly_in_any_order(expected)
    }

    fn contains_exactly_matching<P: Fn(&T) -> bool>(self, predicates: &[P]) -> (r: AssertThat<()>)
        where
            T: Render,
        ensures
            exists|drawn: Seq<T>, o: Seq<bool>| #![trigger positional_flags(drawn, predicates@, o)] positional_flags(drawn, predicates@, o) && drawn.len() <= exact_limit(predicates@.len()) && (!all_set(o) ==> drawn.len() == o.len()) && (self.subject().obeys_prophetic_iter_laws() ==> drawn.len() <= self.subject().remaining().len() && drawn == self.subject().remaining().take(drawn.len() as int)) && ((all_set(o) && drawn.len() < exact_limit(predicates@.len())) ==> (self.subject().obeys_prophetic_iter_laws() ==> drawn == self.subject().remaining())) && self.ends_as(&r, drawn.len() == predicates@.len() && all_set(o), with_consumed(drawn_positional_failure(drawn, predicates@.len(), o), drawn.len() as int)),
    {
        let (mut iter, this) = self.replace_actual(());
        let (drawn, o) = draw_matching(&mut iter, predicates, exact_draw_limit(predicates.len()));
        let all = all_flags(&o);
        if drawn.len() == predicates.len() && all {
            this.pass()
        } else {
            let f = if all {
                explain_positional(drawn.as_slice(), predicates.len(), &o)
            } else {
                explain_mismatches(drawn.as_slice(), &o)
            };
            let f = add_consumed(f, drawn.len());
            this.conclude(false, f)
        }
    }

    fn contain_exactly_matching<P: Fn(&T) -> bool>(self, predicates: &[P]) -> (r: AssertThat<()>)
        where
            T: Render,
        ensures
            exists|drawn: Seq<T>, o: Seq<bool>| #![trigger positional_flags(drawn, predicates@, o)] positional_flags(drawn, predicates@, o) && drawn.len() <= exact_limit(predicates@.len()) && (!all_set(o) ==> drawn.len() == o.len()) && (self.subject().obeys_prophetic_iter_laws() ==> drawn.len() <= self.subject().remaining().len() && drawn == self.subject().remaining().take(drawn.len() as int)) && ((all_set(o) && drawn.len() < exact_limit(predicates@.len())) ==> (self.subject().obeys_prophetic_iter_laws() ==> drawn == self.subject().remaining())) && self.ends_as(&r, drawn.len() == predicates@.len() && all_set(o), with_consumed(drawn_positional_failure(drawn, predicates@.len(), o), drawn.len() as int)),
    {
        self.contains_exactly_matching(predicates)
    }

    fn contains_exactly_in_any_order_matching<P: Fn(&T) -> bool>(self, predicates: &[P]) -> (r: AssertThat<()>)
        where
            T: Render,
        ensures
            exists|drawn: Seq<T>, m: Seq<Seq<bool>>| #![trigger predicate_matrix(drawn, predicates@, m)] predicate_matrix(drawn, predicates@, m) && drawn.len() <= exact_limit(predicates@.len()) && (self.subject().obeys_prophetic_iter_laws() ==> drawn.len() <= self.subject().remaining().len() && drawn == self.subject().remaining().take(drawn.len() as int)) && (drawn.len() < exact_limit(predicates@.len()) ==> (self.subject().obeys_prophetic_iter_laws() ==> drawn == self.subject().remaining())) && self.ends_as(&r, perfectly_matchable(m, predicates@.len()), with_consumed(unordered_predicates_failure(drawn, predicates@.len(), m), drawn.len() as int)),
    {
        let (mut iter, this) = self.replace_actual(());
        let drawn = draw_up_to(&mut iter, exact_draw_limit(predicates.len()));
        proof {
            assert forall|i: int, j: int| #![trigger predicates@[j], drawn@[i]] 0 <= i < drawn@.len() && 0 <= j < predicates@.len() implies call_requires(predicates@[j], (&drawn@[i],)) by {
                assert(call_requires(predicates@[j], (&drawn@[i],)));
            }
        }
        let (ok, f, Ghost(m)) = check_unordered_predicates(drawn.as_slice(), predicates);
        proof {
            assert(predicate_matrix(drawn@, predicates@, m));
        }
        if ok {
            this.pass()
        } else {
            let f = add_consumed(f, drawn.len());
            this.conclude(false, f)
        }
    }

    fn contain_exactly_in_any_order_matching<P: Fn(&T) -> bool>(self, predicates: &[P]) -> (r: AssertThat<()>)
        where
            T: Render,
        ensures
            exists|drawn: Seq<T>, m: Seq<Seq<bool>>| #![trigger predicate_matrix(drawn, predicates@, m)] predicate_matrix(drawn, predicates@, m) && drawn.len() <= exact_limit(predicates@.len()) && (self.subject().obeys_prophetic_iter_laws() ==> drawn.len() <= self.subject().remaining().len() && drawn == self.subject().remaining().take(drawn.len() as int)) && (drawn.len() < exact_limit(predicates@.len()) ==> (self.subject().obeys_prophetic_iter_laws() ==> drawn == self.subject().remaining())) && self.ends_as(&r, perfectly_matchable(m, predicates@.len()), with_consumed(unordered_predicates_failure(drawn, predicates@.len(), m), drawn.len() as int)),
    {
        self.contains_exactly_in_any_order_matching(predicates)
    }

    fn contains_satisfying<A: for<'x> Fn(AssertThat<&'x T>) -> AssertThat<&'x T>>(self, assertions: A) -> (r: AssertThat<()>)
        where
            T: Render,
        ensures
            exists|drawn: Seq<T>, ok: bool| #![trigger passing_verdict(drawn, assertions, ok)] passing_verdict(drawn, assertions, ok) && (self.subject().obeys_prophetic_iter_laws() ==> drawn.len() <= self.subject().remaining().len() && drawn == self.subject().remaining().take(drawn.len() as int)) && (!ok ==> (drawn.len() == usize::MAX || (self.subject().obeys_prophetic_iter_laws() ==> drawn == self.subject().remaining()))) && self.ends_as(&r, ok, drawn_failure(drawn, "does not contain an element satisfying the assertions"@, None, None)),
    {
        let (mut iter, this) = self.replace_actual(());
        let (drawn, found) = draw_until_passing(&mut iter, &assertions);
        proof {
            assert(passing_verdict(drawn@, assertions, found));
        }
        if found {
            this.pass()
        } else {
            let f = explain_drawn(drawn.as_slice(), "does not contain an element satisfying the assertions", None, None);
            this.conclude(false, f)
        }
    }

    fn contain_satisfying<A: for<'x> Fn(AssertThat<&'x T>) -> AssertThat<&'x T>>(self, assertions: A) -> (r: AssertThat<()>)
        where
            T: Render,
        ensures
            exists|drawn: Seq<T>, ok: bool| #![trigger passing_verdict(drawn, assertions, ok)] passing_verdict(drawn, assertions, ok) && (self.subject().obeys_prophetic_iter_laws() ==> drawn.len() <= self.subject().remaining().len() && drawn == self.subject().remaining().take(drawn.len() as int)) && (!ok ==> (drawn.len() == usize::MAX || (self.subject().obeys_prophetic_iter_laws() ==> drawn == self.subject().remaining()))) && self.ends_as(&r, ok, drawn_failure(drawn, "does not contain an element satisfying the assertions"@, None, None)),
    {
        self.contains_satisfying(assertions)
    }

    fn does_not_contain_satisfying<A: for<'x> Fn(AssertThat<&'x T>) -> AssertThat<&'x T>>(self, assertions: A) -> (r: AssertThat<()>)
        where
            T: Render,
        ensures
            exists|drawn: Seq<T>, found: bool| #![trigger passing_verdict(drawn, assertions, found)] passing_verdict(drawn, assertions, found) && (self.subject().obeys_prophetic_iter_laws() ==> drawn.len() <= self.subject().remaining().len() && drawn == self.subject().remaining().take(drawn.len() as int)) && (!found ==> (drawn.len() == usize::MAX || (self.subject().obeys_prophetic_iter_laws() ==> drawn == self.subject().remaining()))) && self.ends_as(&r, !found, decisive_failure(drawn, "contains an element satisfying the assertions"@, None, None)),
    {
        let (mut iter, this) = self.replace_actual(());
        let (drawn, found) = draw_until_passing(&mut iter, &assertions);
        proof {
            assert(passing_verdict(drawn@, assertions, found));
        }
        if !found {
            this.pass()
        } else {
            let f = explain_decisive(drawn.as_slice(), "contains an element satisfying the assertions", None, None);
            this.conclude(false, f)
        }
    }

    fn not_contain_satisfying<A: for<'x> Fn(AssertThat<&'x T>) -> AssertThat<&'x T>>(self, assertions: A) -> (r: AssertThat<()>)
        where
            T: Render,
        ensures
            exists|drawn: Seq<T>, found: bool| #![trigger passing_verdict(drawn, assertions, found)] passing_verdict(drawn, assertions, found) && (self.subject().obeys_prophetic_iter_laws() ==> drawn.len() <= self.subject().remaining().len() && drawn == self.subject().remaining().take(drawn.len() as int)) && (!found ==> (drawn.len() == usize::MAX || (self.subject().obeys_prophetic_iter_laws() ==> drawn == self.subject().remaining()))) && self.ends_as(&r, !found, decisive_failure(drawn, "contains an element satisfying the assertions"@, None, None)),
    {
        self.does_not_contain_satisfying(assertions)
    }

    fn starts_with_satisfying<A: for<'x> Fn(AssertThat<&'x T>) -> AssertThat<&'x T>>(self, assertions: &[A]) -> (r: AssertThat<()>)
        where
            T: Render,
        ensures
            exists|drawn: Seq<T>, o: Seq<bool>| #![trigger passes_from(drawn, 0, assertions@, o)] passes_from(drawn, 0, assertions@, o) && drawn.len() <= assertions@.len() && (self.subject().obeys_prophetic_iter_laws() ==> drawn.len() <= self.subject().remaining().len() && drawn == self.subject().remaining().take(drawn.len() as int)) && (drawn.len() < assertions@.len() ==> (self.subject().obeys_prophetic_iter_laws() ==> drawn == self.subject().remaining())) && self.ends_as(&r, drawn.len() == assertions@.len() && all_set(o), drawn_failure(drawn, "does not start with elements satisfying the assertions"@, None, None)),
    {
        let (mut iter, this) = self.replace_actual(());
        let drawn = draw_up_to(&mut iter, assertions.len());
        let mut ok = false;
        let ghost mut flags = Seq::<bool>::empty();
        if drawn.len() == assertions.len() {
            let o = pass_positions(drawn.as_slice(), 0, assertions);
            proof {
                flags = o@;
            }
            ok = all_flags(&o);
        }
        proof {
            assert(passes_from(drawn@, 0, assertions@, flags));
        }
        if ok {
            this.pass()
        } else {
            let f = explain_drawn(drawn.as_slice(), "does not start with elements satisfying the assertions", None, None);
            this.conclude(false, f)
        }
    }

    fn start_with_satisfying<A: for<'x> Fn(AssertThat<&'x T>) -> AssertThat<&'x T>>(self, assertions: &[A]) -> (r: AssertThat<()>)
        where
            T: Render,
        ensures
            exists|drawn: Seq<T>, o: Seq<bool>| #![trigger passes_from(drawn, 0, assertions@, o)] passes_from(drawn, 0, assertions@, o) && drawn.len() <= assertions@.len() && (self.subject().obeys_prophetic_iter_laws() ==> drawn.len() <= self.subject().remaining().len() && drawn == self.subject().remaining().take(drawn.len() as int)) && (drawn.len() < assertions@.len() ==> (self.subject().obeys_prophetic_iter_laws() ==> drawn == self.subject().remaining())) && self.ends_as(&r, drawn.len() == assertions@.len() && all_set(o), drawn_failure(drawn, "does not start with elements satisfying the assertions"@, None, None)),
    {
        self.starts_with_satisfying(assertions)
    }

    fn ends_with_satisfying<A: for<'x> Fn(AssertThat<&'x T>) -> AssertThat<&'x T>>(self, assertions: &[A]) -> (r: AssertThat<()>)
        where
            T: Render,
        ensures
            exists|drawn: Seq<T>, o: Seq<bool>| #![trigger passes_from(drawn, drawn.len() - assertions@.len(), assertions@, o)] passes_from(drawn, drawn.len() - assertions@.len(), assertions@, o) && (self.subject().obeys_prophetic_iter_laws() ==> drawn.len() <= self.subject().remaining().len() && drawn == self.subject().remaining().take(drawn.len() as int)) && (assertions@.len() == 0 ==> drawn.len() == 0) && ((assertions@.len() > 0 && drawn.len() < usize::MAX) ==> (self.subject().obeys_prophetic_iter_laws() ==> drawn == self.subject().remaining())) && self.ends_as(&r, assertions@.len() <= drawn.len() && all_set(o), drawn_failure(drawn, "does not end with elements satisfying the assertions"@, None, None)),
    {
        let (mut iter, this) = self.replace_actual(());
        let limit = if assertions.len() == 0 { 0 } else { usize::MAX };
        let drawn = draw_up_to(&mut iter, limit);
        let mut ok = false;
        let ghost mut flags = Seq::<bool>::empty();
        if assertions.len() <= drawn.len() {
            let o = pass_positions(drawn.as_slice(), drawn.len() - assertions.len(), assertions);
            proof {
                flags = o@;
            }
            ok = all_flags(&o);
        }
        proof {
            assert(passes_from(drawn@, drawn@.len() - assertions@.len(), assertions@, flags));
        }
        if ok {
            this.pass()
        } else {
            let f = explain_drawn(drawn.as_slice(), "does not end with elements satisfying the assertions", None, None);
            this.conclude(false, f)
        }
    }

    fn end_with_satisfying<A: for<'x> Fn(AssertThat<&'x T>) -> AssertThat<&'x T>>(self, assertions: &[A]) -> (r: AssertThat<()>)
        where
            T: Render,
        ensures
            exists|drawn: Seq<T>, o: Seq<bool>| #![trigger passes_from(drawn, drawn.len() - assertions@.len(), assertions@, o)] passes_from(drawn, drawn.len() - assertions@.len(), assertions@, o) && (self.subject().obeys_prophetic_iter_laws() ==> drawn.len() <= self.subject().remaining().len() && drawn == self.subject().remaining().take(drawn.len() as int)) && (assertions@.len() == 0 ==> drawn.len() == 0) && ((assertions@.len() > 0 && drawn.len() < usize::MAX) ==> (self.subject().obeys_prophetic_iter_laws() ==> drawn == self.subject().remaining())) && self.ends_as(&r, assertions@.len() <= drawn.len() && all_set(o), drawn_failure(drawn, "does not end with elements satisfying the assertions"@, None, None)),
    {
        self.ends_with_satisfying(assertions)
    }

    fn contains_exactly_satisfying<A: for<'x> Fn(AssertThat<&'x T>) -> AssertThat<&'x T>>(self, assertions: &[A]) -> (r: AssertThat<()>)
        where
            T: Render,
        ensures
            exists|drawn: Seq<T>, o: Seq<bool>| #![trigger passes_from(drawn, 0, assertions@, o)] passes_from(drawn, 0, assertions@, o) && drawn.len() <= exact_limit(assertions@.len()) && (self.subject().obeys_prophetic_iter_laws() ==> drawn.len() <= self.subject().remaining().len() && drawn == self.subject().remaining().take(drawn.len() as int)) && (drawn.len() < exact_limit(assertions@.len()) ==> (self.subject().obeys_prophetic_iter_laws() ==> drawn == self.subject().remaining())) && self.ends_as(&r, drawn.len() == assertions@.len() && all_set(o), drawn_failure(drawn, "does not contain exactly elements satisfying the assertions"@, None, None)),
    {
        let (mut iter, this) = self.replace_actual(());
        let drawn = draw_up_to(&mut iter, exact_draw_limit(assertions.len()));
        let mut ok = false;
        let ghost mut flags = Seq::<bool>::empty();
        if assertions.len() <= drawn.len() {
            let o = pass_positions(drawn.as_slice(), 0, assertions);
            proof {
                flags = o@;
            }
            ok = drawn.len() == assertions.len() && all_flags(&o);
        }
        proof {
            assert(passes_from(drawn@, 0, assertions@, flags));
        }
        if ok {
            this.pass()
        } else {
            let f = explain_drawn(drawn.as_slice(), "does not contain exactly elements satisfying the assertions", None, None);
            this.conclude(false, f)
        }
    }

    fn contain_exactly_satisfying<A: for<'x> Fn(AssertThat<&'x T>) -> AssertThat<&'x T>>(self, assertions: &[A]) -> (r: AssertThat<()>)
        where
            T: Render,
        ensures
            exists|drawn: Seq<T>, o: Seq<bool>| #![trigger passes_from(drawn, 0, assertions@, o)] passes_from(drawn, 0, assertions@, o) && drawn.len() <= exact_limit(assertions@.len()) && (self.subject().obeys_prophetic_iter_laws() ==> drawn.len() <= self.subject().remaining().len() && drawn == self.subject().remaining().take(drawn.len() as int)) && (drawn.len() < exact_limit(assertions@.len()) ==> (self.subject().obeys_prophetic_iter_laws() ==> drawn == self.subject().remaining())) && self.ends_as(&r, drawn.len() == assertions@.len() && all_set(o), drawn_failure(drawn, "does not contain exactly elements satisfying the assertions"@, None, None)),
    {
        self.contains_exactly_satisfying(assertions)
    }

    fn contains_exactly_in_any_order_satisfying<A: for<'x> Fn(AssertThat<&'x T>) -> AssertThat<&'x T>>(self, assertions: &[A]) -> (r: AssertThat<()>)
        where
            T: Render,
        ensures
            exists|drawn: Seq<T>, m: Seq<Seq<bool>>| #![trigger satisfaction_matrix(drawn, assertions@, m)] satisfaction_matrix(drawn, assertions@, m) && drawn.len() <= exact_limit(assertions@.len()) && (self.subject().obeys_prophetic_iter_laws() ==> drawn.len() <= self.subject().remaining().len() && drawn == self.subject().remaining().take(drawn.len() as int)) && (drawn.len() < exact_limit(assertions@.len()) ==> (self.subject().obeys_prophetic_iter_laws() ==> drawn == self.subject().remaining())) && self.ends_as(&r, perfectly_matchable(m, assertions@.len()), with_consumed(unordered_satisfying_failure(drawn, assertions@.len(), m), drawn.len() as int)),
    {
        let (mut iter, this) = self.replace_actual(());
        let drawn = draw_up_to(&mut iter, exact_draw_limit(assertions.len()));
        let (ok, f, Ghost(m)) = check_unordered_satisfying(drawn.as_slice(), assertions);
        proof {
            assert(satisfaction_matrix(drawn@, assertions@, m));
        }
        if ok {
            this.pass()
        } else {
            let f = add_consumed(f, drawn.len());
            this.conclude(false, f)
        }
    }

    fn contain_exactly_in_any_order_satisfying<A: for<'x> Fn(AssertThat<&'x T>) -> AssertThat<&'x T>>(self, assertions: &[A]) -> (r: AssertThat<()>)
        where
            T: Render,
        ensures
            exists|drawn: Seq<T>, m: Seq<Seq<bool>>| #![trigger satisfaction_matrix(drawn, assertions@, m)] satisfaction_matrix(drawn, assertions@, m) && drawn.len() <= exact_limit(assertions@.len()) && (self.subject().obeys_prophetic_iter_laws() ==> drawn.len() <= self.subject().remaining().len() && drawn == self.subject().remaining().take(drawn.len() as int)) && (drawn.len() < exact_limit(assertions@.len()) ==> (self.subject().obeys_prophetic_iter_laws() ==> drawn == self.subject().remaining())) && self.ends_as(&r, perfectly_matchable(m, assertions@.len()), with_consumed(unordered_satisfying_failure(drawn, assertions@.len(), m), drawn.len() as int)),
    {
        self.contains_exactly_in_any_order_satisfying(assertions)
    }

    fn starts_with_matching<P: Fn(&T) -> bool>(self, predicates: &[P]) -> (r: AssertThat<()>)
        where
            T: Render,
        ensures
            exists|drawn: Seq<T>, o: Seq<bool>| #![trigger matches_from(drawn, 0, predicates@, o)] matches_from(drawn, 0, predicates@, o) && drawn.len() <= predicates@.len() && (self.subject().obeys_prophetic_iter_laws() ==> drawn.len() <= self.subject().remaining().len() && drawn == self.subject().remaining().take(drawn.len() as int)) && (drawn.len() < predicates@.len() ==> (self.subject().obeys_prophetic_iter_laws() ==> drawn == self.subject().remaining())) && self.ends_as(&r, drawn.len() == predicates@.len() && all_set(o), drawn_failure(drawn, "does not match the required position"@, None, None)),
    {
        let (mut iter, this) = self.replace_actual(());
        let drawn = draw_up_to(&mut iter, predicates.len());
        let mut ok = false;
        let ghost mut flags = Seq::<bool>::empty();
        if drawn.len() == predicates.len() {
            let o = match_positions(drawn.as_slice(), 0, predicates);
            proof {
                flags = o@;
            }
            ok = all_flags(&o);
        }
        proof {
            assert(matches_from(drawn@, 0, predicates@, flags));
        }
        if ok {
            this.pass()
        } else {
            let f = explain_drawn(drawn.as_slice(), "does not match the required position", None, None);
            this.conclude(false, f)
        }
    }

    fn ends_with_matching<P: Fn(&T) -> bool>(self, predicates: &[P]) -> (r: AssertThat<()>)
        where
            T: Render,
        ensures
            exists|drawn: Seq<T>, o: Seq<bool>| #![trigger matches_from(drawn, drawn.len() - predicates@.len(), predicates@, o)] matches_from(drawn, drawn.len() - predicates@.len(), predicates@, o) && (self.subject().obeys_prophetic_iter_laws() ==> drawn.len() <= self.subject().remaining().len() && drawn == self.subject().remaining().take(drawn.len() as int)) && (predicates@.len() == 0 ==> drawn.len() == 0) && ((predicates@.len() > 0 && drawn.len() < usize::MAX) ==> (self.subject().obeys_prophetic_iter_laws() ==> drawn == self.subject().remaining())) && self.ends_as(&r, predicates@.len() <= drawn.len() && all_set(o), drawn_failure(drawn, "does not end with matching positions"@, None, None)),
    {
        let (mut iter, this) = self.replace_actual(());
        let limit = if predicates.len() == 0 { 0 } else { usize::MAX };
        let drawn = draw_up_to(&mut iter, limit);
        let mut ok = false;
        let ghost mut flags = Seq::<bool>::empty();
        if predicates.len() <= drawn.len() {
            let o = match_positions(drawn.as_slice(), drawn.len() - predicates.len(), predicates);
            proof {
                flags = o@;
            }
            ok = all_flags(&o);
        }
        proof {
            assert(matches_from(drawn@, drawn@.len() - predicates@.len(), predicates@, flags));
        }
        if ok {
            this.pass()
        } else {
            let f = explain_drawn(drawn.as_slice(), "does not end with matching positions", None, None);
            this.conclude(false, f)
        }
    }

    fn contains_contiguous_matching<P: Fn(&T) -> bool>(self, predicates: &[P]) -> (r: AssertThat<()>)
        where
            T: Render,
        ensures
            exists|drawn: Seq<T>, ok: bool| #![trigger contiguous_match_outcome(drawn, predicates@, ok)] contiguous_match_outcome(drawn, predicates@, ok) && (self.subject().obeys_prophetic_iter_laws() ==> drawn.len() <= self.subject().remaining().len() && drawn == self.subject().remaining().take(drawn.len() as int)) && (!ok ==> (drawn.len() == usize::MAX || (self.subject().obeys_prophetic_iter_laws() ==> drawn == self.subject().remaining()))) && self.ends_as(&r, ok, drawn_failure(drawn, "does not contain matching contiguous positions"@, None, None)),
    {
        let (mut iter, this) = self.replace_actual(());
        let (drawn, found) = draw_until_matching_window(&mut iter, predicates);
        proof {
            assert(contiguous_match_outcome(drawn@, predicates@, found));
        }
        if found {
            this.pass()
        } else {
            let f = explain_drawn(drawn.as_slice(), "does not contain matching contiguous positions", None, None);
            this.conclude(false, f)
        }
    }

    fn contains_contiguous_satisfying<A: for<'x> Fn(AssertThat<&'x T>) -> AssertThat<&'x T>>(self, assertions: &[A]) -> (r: AssertThat<()>)
        where
            T: Render,
        ensures
            exists|drawn: Seq<T>, ok: bool| #![trigger contiguous_pass_outcome(drawn, assertions@, ok)] contiguous_pass_outcome(drawn, assertions@, ok) && (self.subject().obeys_prophetic_iter_laws() ==> drawn.len() <= self.subject().remaining().len() && drawn == self.subject().remaining().take(drawn.len() as int)) && (!ok ==> (drawn.len() == usize::MAX || (self.subject().obeys_prophetic_iter_laws() ==> drawn == self.subject().remaining()))) && self.ends_as(&r, ok, drawn_failure(drawn, "does not contain matching contiguous positions"@, None, None)),
    {
        let (mut iter, this) = self.replace_actual(());
        let (drawn, found) = draw_until_passing_window(&mut iter, assertions);
        proof {
            assert(contiguous_pass_outcome(drawn@, assertions@, found));
        }
        if found {
            this.pass()
        } else {
            let f = explain_drawn(drawn.as_slice(), "does not contain matching contiguous positions", None, None);
            this.conclude(false, f)
        }
    }

    fn start_with_matching<P: Fn(&T) -> bool>(self, predicates: &[P]) -> (r: AssertThat<()>)
        where
            T: Render,
        ensures
            exists|drawn: Seq<T>, o: Seq<bool>| #![trigger matches_from(drawn, 0, predicates@, o)] matches_from(drawn, 0, predicates@, o) && drawn.len() <= predicates@.len() && (self.subject().obeys_prophetic_iter_laws() ==> drawn.len() <= self.subject().remaining().len() && drawn == self.subject().remaining().take(drawn.len() as int)) && (drawn.len() < predicates@.len() ==> (self.subject().obeys_prophetic_iter_laws() ==> drawn == self.subject().remaining())) && self.ends_as(&r, drawn.len() == predicates@.len() && all_set(o), drawn_failure(drawn, "does not match the required position"@, None, None)),
    {
        self.starts_with_matching(predicates)
    }

    fn end_with_matching<P: Fn(&T) -> bool>(self, predicates: &[P]) -> (r: AssertThat<()>)
        where
            T: Render,
        ensures
            exists|drawn: Seq<T>, o: Seq<bool>| #![trigger matches_from(drawn, drawn.len() - predicates@.len(), predicates@, o)] matches_from(drawn, drawn.len() - predicates@.len(), predicates@, o) && (self.subject().obeys_prophetic_iter_laws() ==> drawn.len() <= self.subject().remaining().len() && drawn == self.subject().remaining().take(drawn.len() as int)) && (predicates@.len() == 0 ==> drawn.len() == 0) && ((predicates@.len() > 0 && drawn.len() < usize::MAX) ==> (self.subject().obeys_prophetic_iter_laws() ==> drawn == self.subject().remaining())) && self.ends_as(&r, predicates@.len() <= drawn.len() && all_set(o), drawn_failure(drawn, "does not end with matching positions"@, None, None)),
    {
        self.ends_with_matching(predicates)
    }

    fn contain_contiguous_matching<P: Fn(&T) -> bool>(self, predicates: &[P]) -> (r: AssertThat<()>)
        where
            T: Render,
        ensures
            exists|drawn: Seq<T>, ok: bool| #![trigger contiguous_match_outcome(drawn, predicates@, ok)] contiguous_match_outcome(drawn, predicates@, ok) && (self.subject().obeys_prophetic_iter_laws() ==> drawn.len() <= self.subject().remaining().len() && drawn == self.subject().remaining().take(drawn.len() as int)) && (!ok ==> (drawn.len() == usize::MAX || (self.subject().obeys_prophetic_iter_laws() ==> drawn == self.subject().remaining()))) && self.ends_as(&r, ok, drawn_failure(drawn, "does not contain matching contiguous positions"@, None, None)),
    {
        self.contains_contiguous_matching(predicates)
    }

    fn contain_contiguous_satisfying<A: for<'x> Fn(AssertThat<&'x T>) -> AssertThat<&'x T>>(self, assertions: &[A]) -> (r: AssertThat<()>)
        where
            T: Render,
        ensures
            exists|drawn: Seq<T>, ok: bool| #![trigger contiguous_pass_outcome(drawn, assertions@, ok)] contiguous_pass_outcome(drawn, assertions@, ok) && (self.subject().obeys_prophetic_iter_laws() ==> drawn.len() <= self.subject().remaining().len() && drawn == self.subject().remaining().take(drawn.len() as int)) && (!ok ==> (drawn.len() == usize::MAX || (self.subject().obeys_prophetic_iter_laws() ==> drawn == self.subject().remaining()))) && self.ends_as(&r, ok, drawn_failure(drawn, "does not contain matching contiguous positions"@, None, None)),
    {
        self.contains_contiguous_satisfying(assertions)
    }
}

} // verus!
