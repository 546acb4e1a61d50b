//! The checks shared by collection subjects: membership, exact sequences, and one-to-one
//! matches in any order, against expected values or predicates.

use vstd::prelude::*;
use crate::failure::{AssertionFailure, FailureKind, FailureView, failure_with, with_fact};
use crate::matching::{perfect_matching_exists, perfectly_matchable, rectangular};
use crate::render::{Render, rendered_list, render_unsigned, decimal_text};
use crate::text::{push_text, text_of};
use crate::assertions::partial_eq::equals;
use vstd::std_specs::cmp::PartialEqSpec;
use crate::assert_that::{AssertThat, passes, passes_with};

verus! {

/// A subject made of a finite sequence of elements.
pub trait Collection {
    type Item;

    /// The elements, in order. Every type of this library states them; the default serves
    /// types implemented outside verified code, whose `element_slice` nothing checks.
    closed spec fn elements(&self) -> Seq<Self::Item> {
        Seq::empty()
    }

    /// The elements as a slice.
    fn element_slice(&self) -> (s: &[Self::Item])
        ensures
            s@ == self.elements(),
    ;
}

impl<T> Collection for Vec<T> {
    type Item = T;

    open spec fn elements(&self) -> Seq<T> {
        self@
    }

    fn element_slice(&self) -> (s: &[T]) {
        self.as_slice()
    }
}

impl<'a, T> Collection for &'a [T] {
    type Item = T;

    open spec fn elements(&self) -> Seq<T> {
        (**self)@
    }

    fn element_slice(&self) -> (s: &[T]) {
        *self
    }
}

impl<T, const N: usize> Collection for [T; N] {
    type Item = T;

    open spec fn elements(&self) -> Seq<T> {
        self@
    }

    fn element_slice(&self) -> (s: &[T]) {
        broadcast use vstd::array::group_array_axioms;
        self.as_slice()
    }
}

/// Some flag of `o` is set.
pub open spec fn any_set(o: Seq<bool>) -> bool {
    exists|i: int| 0 <= i < o.len() && o[i]
}

/// Every flag of `o` is set.
pub open spec fn all_set(o: Seq<bool>) -> bool {
    forall|i: int| 0 <= i < o.len() ==> o[i]
}

/// The elements of `s` whose flag in `keep` is set, in order.
pub open spec fn selected<T>(s: Seq<T>, keep: Seq<bool>) -> Seq<T>
    decreases s.len(),
{
    if s.len() == 0 {
        Seq::empty()
    } else {
        let rest = selected(s.drop_last(), keep);
        if keep[s.len() - 1] { rest.push(s.last()) } else { rest }
    }
}

/// The number of set flags in `o`.
pub open spec fn set_count(o: Seq<bool>) -> nat
    decreases o.len(),
{
    if o.len() == 0 {
        0
    } else {
        set_count(o.drop_last()) + if o.last() { 1nat } else { 0nat }
    }
}

/// `o` holds, for each element, whether it equals `expected`, as far as `T`'s `PartialEq`
/// follows its specification.
pub open spec fn equality_flags<T: PartialEq<E>, E>(items: Seq<T>, expected: &E, o: Seq<bool>) -> bool {
    &&& o.len() == items.len()
    &&& T::obeys_eq_spec() ==> forall|i: int| 0 <= i < items.len() ==> o[i] == equals(
        &items[i],
        expected,
    )
}

/// `o` holds, for each element, the answer `predicate` gave on it.
pub open spec fn predicate_flags<T, P: Fn(&T) -> bool>(items: Seq<T>, predicate: P, o: Seq<bool>) -> bool {
    &&& o.len() == items.len()
    &&& forall|i: int| 0 <= i < items.len() ==> call_ensures(predicate, (&items[i],), #[trigger] o[i])
}

/// `predicate` accepts every element of `items` as an argument.
pub open spec fn callable_on<T, P: Fn(&T) -> bool>(items: Seq<T>, predicate: P) -> bool {
    forall|i: int| #![trigger items[i]] 0 <= i < items.len() ==> call_requires(predicate, (&items[i],))
}

/// Compares every element with `expected`.
pub fn equality_outcomes<T: PartialEq<E>, E>(items: &[T], expected: &E) -> (o: Vec<bool>)
    ensures
        equality_flags(items@, expected, o@),
{
    let mut o: Vec<bool> = Vec::new();
    let mut i: usize = 0;
    while i < items.len()
        invariant
            i <= items.len(),
            o@.len() == i,
            T::obeys_eq_spec() ==> forall|k: int| 0 <= k < i ==> o@[k] == equals(&items@[k], expected),
        decreases items.len() - i,
    {
        let b = items[i].eq(expected);
        o.push(b);
        i = i + 1;
    }
    o
}

/// Asks `predicate` about every element, once each, in order.
pub fn predicate_outcomes<T, P: Fn(&T) -> bool>(items: &[T], predicate: &P) -> (o: Vec<bool>)
    requires
        callable_on(items@, *predicate),
    ensures
        predicate_flags(items@, *predicate, o@),
{
    let mut o: Vec<bool> = Vec::new();
    let mut i: usize = 0;
    while i < items.len()
        invariant
            i <= items.len(),
            o@.len() == i,
            callable_on(items@, *predicate),
            forall|k: int| 0 <= k < i ==> call_ensures(*predicate, (&items@[k],), #[trigger] o@[k]),
        decreases items.len() - i,
    {
        let b = predicate(&items[i]);
        o.push(b);
        i = i + 1;
    }
    o
}

/// Whether some flag is set.
pub fn any_flag(o: &Vec<bool>) -> (b: bool)
    ensures
        b == any_set(o@),
{
    let mut i: usize = 0;
    while i < o.len()
        invariant
            i <= o.len(),
            forall|k: int| 0 <= k < i ==> !o@[k],
        decreases o.len() - i,
    {
        if o[i] {
            return true;
        }
        i = i + 1;
    }
    false
}

/// Whether every flag is set.
pub fn all_flags(o: &Vec<bool>) -> (b: bool)
    ensures
        b == all_set(o@),
{
    let mut i: usize = 0;
    while i < o.len()
        invariant
            i <= o.len(),
            forall|k: int| 0 <= k < i ==> o@[k],
        decreases o.len() - i,
    {
        if !o[i] {
            return false;
        }
        i = i + 1;
    }
    true
}

/// Counts the set flags.
pub fn count_flags(o: &Vec<bool>) -> (n: usize)
    ensures
        n as nat == set_count(o@),
{
    let mut n: usize = 0;
    let mut i: usize = 0;
    while i < o.len()
        invariant
            i <= o.len(),
            n as nat == set_count(o@.take(i as int)),
            n <= i,
        decreases o.len() - i,
    {
        assert(o@.take(i + 1).drop_last() =~= o@.take(i as int));
        if o[i] {
            n = n + 1;
        }
        i = i + 1;
    }
    assert(o@.take(o.len() as int) =~= o@);
    n
}

proof fn lemma_selected_prefix<T>(s: Seq<T>, keep: Seq<bool>, i: int)
    requires
        0 <= i < s.len(),
    ensures
        selected(s.take(i + 1), keep) == if keep[i] {
            selected(s.take(i), keep).push(s[i])
        } else {
            selected(s.take(i), keep)
        },
{
    assert(s.take(i + 1).drop_last() =~= s.take(i));
}

/// Renders the selected elements in list syntax.
pub fn render_selected<T: Render>(items: &[T], keep: &Vec<bool>) -> (s: String)
    requires
        keep@.len() == items@.len(),
    ensures
        s@ == rendered_list(selected(items@, keep@)),
{
    let mut s = text_of("[");
    let mut first = true;
    let mut i: usize = 0;
    while i < items.len()
        invariant
            i <= items.len(),
            keep@.len() == items@.len(),
            first == (selected(items@.take(i as int), keep@).len() == 0),
            s@ == "["@ + crate::render::rendered_elements(selected(items@.take(i as int), keep@)),
        decreases items.len() - i,
    {
        proof {
            lemma_selected_prefix(items@, keep@, i as int);
        }
        if keep[i] {
            push_text(&mut s, "\n");
            let r = items[i].render();
            let r = crate::render::indent_text(r.as_str());
            push_text(&mut s, r.as_str());
            push_text(&mut s, ",");
            first = false;
            proof {
                let t = selected(items@.take(i + 1), keep@);
                assert(t.drop_last() =~= selected(items@.take(i as int), keep@));
            }
        }
        i = i + 1;
    }
    assert(items@.take(items.len() as int) =~= items@);
    if first {
        text_of("[]")
    } else {
        push_text(&mut s, "\n]");
        s
    }
}

/// The failure of `contains`.
pub open spec fn missing_element_failure<T: Render, E: Render>(items: Seq<T>, expected: &E) -> FailureView {
    failure_with(
        FailureKind::Membership,
        Some(rendered_list(items)),
        Some("does not contain expected: "@ + expected.rendered()),
        None,
        None,
    )
}

/// The failure of `does_not_contain`.
pub open spec fn unexpected_element_failure<T: Render, E: Render>(items: Seq<T>, unexpected: &E) -> FailureView {
    failure_with(
        FailureKind::Membership,
        Some(rendered_list(items)),
        Some("contains unexpected: "@ + unexpected.rendered()),
        None,
        None,
    )
}

/// The failure of `contains_matching`.
pub open spec fn no_match_failure<T: Render>(items: Seq<T>) -> FailureView {
    failure_with(
        FailureKind::Membership,
        Some(rendered_list(items)),
        Some("does not contain an element matching the given predicate."@),
        None,
        None,
    )
}

/// The failure of `does_not_contain_matching`, listing the matching elements.
pub open spec fn matches_found_failure<T: Render>(items: Seq<T>, o: Seq<bool>) -> FailureView {
    failure_with(
        FailureKind::Membership,
        Some(rendered_list(items)),
        Some("contains elements matching the given predicate: "@ + rendered_list(selected(items, o))),
        None,
        None,
    )
}

/// Explains a failed `contains`.
pub fn explain_missing_element<T: Render, E: Render>(items: &[T], expected: &E) -> (f: AssertionFailure)
    ensures
        f@ == missing_element_failure(items@, expected),
{
    let mut relation = text_of("does not contain expected: ");
    let shown = expected.render();
    push_text(&mut relation, shown.as_str());
    AssertionFailure::assemble(
        FailureKind::Membership,
        Some(crate::render::render_list(items)),
        Some(relation),
        None,
        None,
    )
}

/// Explains a failed `does_not_contain`.
pub fn explain_unexpected_element<T: Render, E: Render>(items: &[T], unexpected: &E) -> (f: AssertionFailure)
    ensures
        f@ == unexpected_element_failure(items@, unexpected),
{
    let mut relation = text_of("contains unexpected: ");
    let shown = unexpected.render();
    push_text(&mut relation, shown.as_str());
    AssertionFailure::assemble(
        FailureKind::Membership,
        Some(crate::render::render_list(items)),
        Some(relation),
        None,
        None,
    )
}

/// Explains a failed `contains_matching`.
pub fn explain_no_match<T: Render>(items: &[T]) -> (f: AssertionFailure)
    ensures
        f@ == no_match_failure(items@),
{
    AssertionFailure::assemble(
        FailureKind::Membership,
        Some(crate::render::render_list(items)),
        Some(text_of("does not contain an element matching the given predicate.")),
        None,
        None,
    )
}

/// Explains a failed `does_not_contain_matching`.
pub fn explain_matches_found<T: Render>(items: &[T], o: &Vec<bool>) -> (f: AssertionFailure)
    requires
        o@.len() == items@.len(),
    ensures
        f@ == matches_found_failure(items@, o@),
{
    let mut relation = text_of("contains elements matching the given predicate: ");
    let listed = render_selected(items, o);
    push_text(&mut relation, listed.as_str());
    AssertionFailure::assemble(
        FailureKind::Membership,
        Some(crate::render::render_list(items)),
        Some(relation),
        None,
        None,
    )
}


/// The entries of each row of an executable matrix.
pub open spec fn matrix_view(m: Seq<Vec<bool>>) -> Seq<Seq<bool>> {
    m.map_values(|r: Vec<bool>| r@)
}

/// `m` compares every element with every expected value, as far as `T`'s `PartialEq`
/// follows its specification.
pub open spec fn equality_matrix<T: PartialEq<E>, E>(items: Seq<T>, expected: Seq<E>, m: Seq<Seq<bool>>) -> bool {
    &&& m.len() == items.len()
    &&& rectangular(m, expected.len())
    &&& T::obeys_eq_spec() ==> forall|i: int, j: int|
        0 <= i < items.len() && 0 <= j < expected.len() ==> #[trigger] m[i][j] == equals(
            &items[i],
            &expected[j],
        )
}

/// `m` holds the answer of each predicate on each element.
pub open spec fn predicate_matrix<T, P: Fn(&T) -> bool>(items: Seq<T>, predicates: Seq<P>, m: Seq<Seq<bool>>) -> bool {
    &&& m.len() == items.len()
    &&& rectangular(m, predicates.len())
    &&& forall|i: int, j: int|
        0 <= i < items.len() && 0 <= j < predicates.len() ==> call_ensures(
            predicates[j],
            (&items[i],),
            #[trigger] m[i][j],
        )
}

/// Every predicate accepts every element as an argument.
pub open spec fn all_callable_on<T, P: Fn(&T) -> bool>(items: Seq<T>, predicates: Seq<P>) -> bool {
    forall|i: int, j: int|
        #![trigger predicates[j], items[i]]
        0 <= i < items.len() && 0 <= j < predicates.len() ==> call_requires(
            predicates[j],
            (&items[i],),
        )
}

/// For each row, whether it has no set entry.
pub open spec fn unmatched_rows(m: Seq<Seq<bool>>) -> Seq<bool> {
    Seq::new(m.len(), |i: int| forall|j: int| 0 <= j < m[i].len() ==> !#[trigger] m[i][j])
}

/// For each of `cols` columns, whether it has no set entry.
pub open spec fn unmatched_cols(m: Seq<Seq<bool>>, cols: nat) -> Seq<bool> {
    Seq::new(cols, |j: int| forall|i: int| 0 <= i < m.len() ==> !#[trigger] m[i][j])
}

/// Compares every element with every expected value.
pub fn equality_matrix_of<T: PartialEq<E>, E>(items: &[T], expected: &[E]) -> (m: Vec<Vec<bool>>)
    ensures
        equality_matrix(items@, expected@, matrix_view(m@)),
{
    let mut m: Vec<Vec<bool>> = Vec::new();
    let mut i: usize = 0;
    while i < items.len()
        invariant
            i <= items.len(),
            m@.len() == i,
            forall|k: int| 0 <= k < i ==> (#[trigger] m@[k])@.len() == expected@.len(),
            T::obeys_eq_spec() ==> forall|k: int, j: int|
                0 <= k < i && 0 <= j < expected@.len() ==> #[trigger] m@[k]@[j] == equals(
                    &items@[k],
                    &expected@[j],
                ),
        decreases items.len() - i,
    {
        let mut row: Vec<bool> = Vec::new();
        let mut j: usize = 0;
        while j < expected.len()
            invariant
                j <= expected.len(),
                row@.len() == j,
                i < items.len(),
                T::obeys_eq_spec() ==> forall|c: int| 0 <= c < j ==> #[trigger] row@[c] == equals(
                    &items@[i as int],
                    &expected@[c],
                ),
            decreases expected.len() - j,
        {
            let b = items[i].eq(&expected[j]);
            row.push(b);
            j = j + 1;
        }
        m.push(row);
        i = i + 1;
    }
    let ghost mv = matrix_view(m@);
    assert forall|k: int| 0 <= k < mv.len() implies #[trigger] mv[k].len() == expected@.len() by {
        assert(mv[k] == m@[k]@);
    }
    assert(T::obeys_eq_spec() ==> forall|k: int, j: int|
        0 <= k < items@.len() && 0 <= j < expected@.len() ==> #[trigger] mv[k][j] == equals(
            &items@[k],
            &expected@[j],
        )) by {
        if T::obeys_eq_spec() {
            assert forall|k: int, j: int| 0 <= k < items@.len() && 0 <= j < expected@.len() implies #[trigger] mv[k][j] == equals(&items@[k], &expected@[j]) by {
                assert(mv[k] == m@[k]@);
                assert(m@[k]@[j] == equals(&items@[k], &expected@[j]));
            }
        }
    }
    m
}

/// Asks every predicate about every element.
pub fn predicate_matrix_of<T, P: Fn(&T) -> bool>(items: &[T], predicates: &[P]) -> (m: Vec<Vec<bool>>)
    requires
        all_callable_on(items@, predicates@),
    ensures
        predicate_matrix(items@, predicates@, matrix_view(m@)),
{
    let mut m: Vec<Vec<bool>> = Vec::new();
    let mut i: usize = 0;
    while i < items.len()
        invariant
            i <= items.len(),
            m@.len() == i,
            all_callable_on(items@, predicates@),
            forall|k: int| 0 <= k < i ==> (#[trigger] m@[k])@.len() == predicates@.len(),
            forall|k: int, j: int|
                0 <= k < i && 0 <= j < predicates@.len() ==> call_ensures(
                    predicates@[j],
                    (&items@[k],),
                    #[trigger] m@[k]@[j],
                ),
        decreases items.len() - i,
    {
        let mut row: Vec<bool> = Vec::new();
        let mut j: usize = 0;
        while j < predicates.len()
            invariant
                j <= predicates.len(),
                row@.len() == j,
                i < items.len(),
                all_callable_on(items@, predicates@),
                forall|c: int| 0 <= c < j ==> call_ensures(
                    predicates@[c],
                    (&items@[i as int],),
                    #[trigger] row@[c],
                ),
            decreases predicates.len() - j,
        {
            let p = &predicates[j];
            assert(call_requires(predicates@[j as int], (&items@[i as int],)));
            let b = p(&items[i]);
            row.push(b);
            j = j + 1;
        }
        m.push(row);
        i = i + 1;
    }
    let ghost mv = matrix_view(m@);
    assert forall|k: int| 0 <= k < mv.len() implies #[trigger] mv[k].len() == predicates@.len() by {
        assert(mv[k] == m@[k]@);
    }
    assert forall|k: int, j: int| 0 <= k < items@.len() && 0 <= j < predicates@.len() implies call_ensures(predicates@[j], (&items@[k],), #[trigger] mv[k][j]) by {
        assert(mv[k] == m@[k]@);
        assert(call_ensures(predicates@[j], (&items@[k],), m@[k]@[j]));
    }
    m
}

/// For each row, whether it has no set entry.
pub fn unmatched_row_flags(m: &Vec<Vec<bool>>) -> (o: Vec<bool>)
    ensures
        o@ == unmatched_rows(matrix_view(m@)),
{
    let ghost mv = matrix_view(m@);
    let mut o: Vec<bool> = Vec::new();
    let mut i: usize = 0;
    while i < m.len()
        invariant
            i <= m.len(),
            mv == matrix_view(m@),
            o@.len() == i,
            forall|k: int| 0 <= k < i ==> o@[k] == unmatched_rows(mv)[k],
        decreases m.len() - i,
    {
        assert(mv[i as int] == m@[i as int]@);
        let mut none = true;
        let mut j: usize = 0;
        while j < m[i].len()
            invariant
                i < m.len(),
                j <= m@[i as int]@.len(),
                none == forall|c: int| 0 <= c < j ==> !#[trigger] m@[i as int]@[c],
            decreases m@[i as int]@.len() - j,
        {
            if m[i][j] {
                none = false;
            }
            j = j + 1;
        }
        o.push(none);
        i = i + 1;
    }
    assert(o@ =~= unmatched_rows(mv));
    o
}

/// For each of `cols` columns, whether it has no set entry.
pub fn unmatched_col_flags(m: &Vec<Vec<bool>>, cols: usize) -> (o: Vec<bool>)
    requires
        rectangular(matrix_view(m@), cols as nat),
    ensures
        o@ == unmatched_cols(matrix_view(m@), cols as nat),
{
    let ghost mv = matrix_view(m@);
    let mut o: Vec<bool> = Vec::new();
    let mut j: usize = 0;
    while j < cols
        invariant
            j <= cols,
            mv == matrix_view(m@),
            rectangular(mv, cols as nat),
            o@.len() == j,
            forall|c: int| 0 <= c < j ==> o@[c] == unmatched_cols(mv, cols as nat)[c],
        decreases cols - j,
    {
        let mut none = true;
        let mut i: usize = 0;
        while i < m.len()
            invariant
                i <= m.len(),
                j < cols,
                mv == matrix_view(m@),
                rectangular(mv, cols as nat),
                none == forall|k: int| 0 <= k < i ==> !#[trigger] mv[k][j as int],
            decreases m.len() - i,
        {
            assert(mv[i as int] == m@[i as int]@);
            assert(mv[i as int].len() == cols);
            if m[i][j] {
                none = false;
            }
            i = i + 1;
        }
        o.push(none);
        j = j + 1;
    }
    assert(o@ =~= unmatched_cols(mv, cols as nat));
    o
}

/// Adds a labelled list of the elements flagged in `keep`, if any is flagged.
pub open spec fn with_listed<T: Render>(f: FailureView, label: Seq<char>, items: Seq<T>, keep: Seq<bool>) -> FailureView {
    if any_set(keep) {
        with_fact(f, Some(label), rendered_list(selected(items, keep)))
    } else {
        f
    }
}

pub fn add_listed<T: Render>(f: AssertionFailure, label: &str, items: &[T], keep: &Vec<bool>) -> (r: AssertionFailure)
    requires
        keep@.len() == items@.len(),
    ensures
        r@ == with_listed(f@, label@, items@, keep@),
{
    if any_flag(keep) {
        let listed = render_selected(items, keep);
        f.add_fact(Some(text_of(label)), listed)
    } else {
        f
    }
}

/// Adds a note.
fn add_note(f: AssertionFailure, note: &str) -> (r: AssertionFailure)
    ensures
        r@ == with_fact(f@, None, note@),
{
    f.add_fact(None, text_of(note))
}

/// The elements without any equal expected value, and the expected values equal to no
/// element, as labelled lists.
pub open spec fn with_leftovers<T: Render, E: Render>(
    f: FailureView,
    items: Seq<T>,
    expected: Seq<E>,
    m: Seq<Seq<bool>>,
) -> FailureView {
    with_listed(
        with_listed(f, "Elements not expected"@, items, unmatched_rows(m)),
        "Elements not found"@,
        expected,
        unmatched_cols(m, expected.len()),
    )
}

/// The failure of `contains_exactly`, given the equality matrix `m`.
pub open spec fn inexact_failure<T: Render, E: Render>(items: Seq<T>, expected: Seq<E>, m: Seq<Seq<bool>>) -> FailureView {
    let base = with_leftovers(
        failure_with(
            FailureKind::Equality,
            Some(rendered_list(items)),
            Some("did not exactly match"@),
            Some(rendered_list(expected)),
            None,
        ),
        items,
        expected,
        m,
    );
    if perfectly_matchable(m, expected.len()) {
        with_fact(base, None, "The order of elements does not match!"@)
    } else {
        base
    }
}

/// The failure of `contains_exactly_in_any_order`, given the equality matrix `m`.
pub open spec fn unordered_failure<T: Render, E: Render>(items: Seq<T>, expected: Seq<E>, m: Seq<Seq<bool>>) -> FailureView {
    let base = with_leftovers(
        failure_with(
            FailureKind::Equality,
            Some(rendered_list(items)),
            Some("does not contain exactly the expected elements in any order"@),
            Some(rendered_list(expected)),
            None,
        ),
        items,
        expected,
        m,
    );
    if !any_set(unmatched_rows(m)) && !any_set(unmatched_cols(m, expected.len())) {
        with_fact(
            base,
            None,
            "No one-to-one assignment of elements to expected values exists."@,
        )
    } else {
        base
    }
}

/// Whether the elements equal the expected values position by position, per `m`.
pub open spec fn diagonal_holds(m: Seq<Seq<bool>>, n: nat, cols: nat) -> bool {
    &&& n == cols
    &&& forall|i: int| 0 <= i < n ==> #[trigger] m[i][i]
}

fn diagonal(m: &Vec<Vec<bool>>, cols: usize) -> (b: bool)
    requires
        rectangular(matrix_view(m@), cols as nat),
    ensures
        b == diagonal_holds(matrix_view(m@), m@.len() as nat, cols as nat),
{
    let ghost mv = matrix_view(m@);
    if m.len() != cols {
        return false;
    }
    let mut i: usize = 0;
    while i < m.len()
        invariant
            i <= m.len(),
            m.len() == cols,
            mv == matrix_view(m@),
            rectangular(mv, cols as nat),
            forall|k: int| 0 <= k < i ==> #[trigger] mv[k][k],
        decreases m.len() - i,
    {
        assert(mv[i as int] == m@[i as int]@);
        if !m[i][i] {
            return false;
        }
        i = i + 1;
    }
    true
}

/// Decides `contains_exactly` and explains a rejection. The returned matrix is the
/// evidence both depend on.
pub fn check_exactly<T: PartialEq<E> + Render, E: Render>(items: &[T], expected: &[E]) -> (out: (bool, AssertionFailure, Ghost<Seq<Seq<bool>>>))
    ensures
        equality_matrix(items@, expected@, out.2@),
        out.0 == diagonal_holds(out.2@, items@.len(), expected@.len()),
        out.1@ == inexact_failure(items@, expected@, out.2@),
{
    let m = equality_matrix_of(items, expected);
    let ok = diagonal(&m, expected.len());
    let rows = unmatched_row_flags(&m);
    let cols = unmatched_col_flags(&m, expected.len());
    let f = AssertionFailure::assemble(
        FailureKind::Equality,
        Some(crate::render::render_list(items)),
        Some(text_of("did not exactly match")),
        Some(crate::render::render_list(expected)),
        None,
    );
    let f = add_listed(f, "Elements not expected", items, &rows);
    let f = add_listed(f, "Elements not found", expected, &cols);
    let f = if perfect_matching_exists(&m, expected.len()) {
        add_note(f, "The order of elements does not match!")
    } else {
        f
    };
    (ok, f, Ghost(matrix_view(m@)))
}

/// Decides `contains_exactly_in_any_order` and explains a rejection. The returned matrix is
/// the evidence both depend on.
pub fn check_unordered<T: PartialEq<E> + Render, E: Render>(items: &[T], expected: &[E]) -> (out: (bool, AssertionFailure, Ghost<Seq<Seq<bool>>>))
    ensures
        equality_matrix(items@, expected@, out.2@),
        out.0 == perfectly_matchable(out.2@, expected@.len()),
        out.1@ == unordered_failure(items@, expected@, out.2@),
{
    let m = equality_matrix_of(items, expected);
    let ok = perfect_matching_exists(&m, expected.len());
    let rows = unmatched_row_flags(&m);
    let cols = unmatched_col_flags(&m, expected.len());
    let f = AssertionFailure::assemble(
        FailureKind::Equality,
        Some(crate::render::render_list(items)),
        Some(text_of("does not contain exactly the expected elements in any order")),
        Some(crate::render::render_list(expected)),
        None,
    );
    let f = add_listed(f, "Elements not expected", items, &rows);
    let f = add_listed(f, "Elements not found", expected, &cols);
    let f = if !any_flag(&rows) && !any_flag(&cols) {
        add_note(f, "No one-to-one assignment of elements to expected values exists.")
    } else {
        f
    };
    (ok, f, Ghost(matrix_view(m@)))
}

/// The failure of `contains_exactly_in_any_order_matching`, given the predicate matrix `m`.
pub open spec fn unordered_predicates_failure<T: Render>(items: Seq<T>, predicates: nat, m: Seq<Seq<bool>>) -> FailureView {
    let base = failure_with(
        FailureKind::Matching,
        Some(rendered_list(items)),
        Some("did not exactly match predicates in any order."@),
        None,
        None,
    );
    let rows = unmatched_rows(m);
    let cols = unmatched_cols(m, predicates);
    let f1 = with_listed(base, "Elements not matched"@, items, rows);
    let f2 = if any_set(cols) {
        with_fact(f1, Some("Predicates not matched"@), decimal_text(set_count(cols) as int))
    } else {
        f1
    };
    if !any_set(rows) && !any_set(cols) {
        with_fact(f2, None, "No one-to-one assignment of elements to predicates exists."@)
    } else {
        f2
    }
}

/// Decides `contains_exactly_in_any_order_matching` and explains a rejection. The returned
/// matrix holds the predicates' answers that both depend on.
pub fn check_unordered_predicates<T: Render, P: Fn(&T) -> bool>(items: &[T], predicates: &[P]) -> (out: (bool, AssertionFailure, Ghost<Seq<Seq<bool>>>))
    requires
        all_callable_on(items@, predicates@),
    ensures
        predicate_matrix(items@, predicates@, out.2@),
        out.0 == perfectly_matchable(out.2@, predicates@.len()),
        out.1@ == unordered_predicates_failure(items@, predicates@.len(), out.2@),
{
    let m = predicate_matrix_of(items, predicates);
    let ok = perfect_matching_exists(&m, predicates.len());
    let rows = unmatched_row_flags(&m);
    let cols = unmatched_col_flags(&m, predicates.len());
    let f = AssertionFailure::assemble(
        FailureKind::Matching,
        Some(crate::render::render_list(items)),
        Some(text_of("did not exactly match predicates in any order.")),
        None,
        None,
    );
    let f = add_listed(f, "Elements not matched", items, &rows);
    let unmatched_predicates = count_flags(&cols);
    let f = if any_flag(&cols) {
        let n = render_unsigned(unmatched_predicates as u64);
        f.add_fact(Some(text_of("Predicates not matched")), n)
    } else {
        f
    };
    let f = if !any_flag(&rows) && !any_flag(&cols) {
        add_note(f, "No one-to-one assignment of elements to predicates exists.")
    } else {
        f
    };
    (ok, f, Ghost(matrix_view(m@)))
}


/// `o` holds, for each position both sequences have, the answer of the predicate at that
/// position on the element at that position.
pub open spec fn positional_flags<T, P: Fn(&T) -> bool>(items: Seq<T>, predicates: Seq<P>, o: Seq<bool>) -> bool {
    &&& o.len() == if items.len() <= predicates.len() { items.len() } else { predicates.len() }
    &&& forall|i: int| 0 <= i < o.len() ==> call_ensures(predicates[i], (&items[i],), #[trigger] o[i])
}

/// Every predicate accepts the element at its position as an argument.
pub open spec fn positionally_callable<T, P: Fn(&T) -> bool>(items: Seq<T>, predicates: Seq<P>) -> bool {
    forall|i: int| #![trigger predicates[i]] 0 <= i < items.len() && 0 <= i < predicates.len() ==> call_requires(predicates[i], (&items[i],))
}

/// The note for the element at `index` that its predicate rejected.
pub open spec fn mismatch_note<T: Render>(items: Seq<T>, index: int) -> Seq<char> {
    "Element at index "@ + decimal_text(index) + " does not match its predicate: "@ + items[index].rendered()
}

/// One note per rejected position below `n`, in order.
pub open spec fn with_mismatch_notes<T: Render>(f: FailureView, items: Seq<T>, o: Seq<bool>, n: nat) -> FailureView
    decreases n,
{
    if n == 0 {
        f
    } else {
        let g = with_mismatch_notes(f, items, o, (n - 1) as nat);
        if !o[n - 1] { with_fact(g, None, mismatch_note(items, n - 1)) } else { g }
    }
}

/// The start of every `contains_exactly_matching` failure: the elements and the relation.
pub open spec fn positional_base<T: Render>(items: Seq<T>) -> FailureView {
    failure_with(
        FailureKind::Matching,
        Some(rendered_list(items)),
        Some("did not exactly match predicates."@),
        None,
        None,
    )
}

/// The failure of `contains_exactly_matching`.
pub open spec fn positional_predicates_failure<T: Render>(items: Seq<T>, predicates: nat, o: Seq<bool>) -> FailureView {
    let base = positional_base(items);
    if items.len() != predicates {
        with_fact(
            base,
            None,
            "Number of elements ("@ + decimal_text(items.len() as int) + ") does not match number of predicates ("@
                + decimal_text(predicates as int) + ")!"@,
        )
    } else {
        with_mismatch_notes(base, items, o, o.len())
    }
}

/// The elements with one note per position that its predicate rejected.
pub fn explain_mismatches<T: Render>(items: &[T], o: &Vec<bool>) -> (f: AssertionFailure)
    requires
        o@.len() == items@.len(),
    ensures
        f@ == with_mismatch_notes(positional_base(items@), items@, o@, o@.len()),
{
    let mut f = AssertionFailure::assemble(
        FailureKind::Matching,
        Some(crate::render::render_list(items)),
        Some(text_of("did not exactly match predicates.")),
        None,
        None,
    );
    let ghost base = f@;
    let mut k: usize = 0;
    while k < o.len()
        invariant
            k <= o@.len(),
            o@.len() == items@.len(),
            base == positional_base(items@),
            f@ == with_mismatch_notes(base, items@, o@, k as nat),
        decreases o@.len() - k,
    {
        if !o[k] {
            let mut note = text_of("Element at index ");
            let idx = render_unsigned(k as u64);
            push_text(&mut note, idx.as_str());
            push_text(&mut note, " does not match its predicate: ");
            let r = items[k].render();
            push_text(&mut note, r.as_str());
            f = f.add_fact(None, note);
        }
        k = k + 1;
    }
    f
}

/// Explains a `contains_exactly_matching` rejection, given the predicates' answers `o` at
/// the positions that both the elements and the `predicates` predicates have.
pub fn explain_positional<T: Render>(items: &[T], predicates: usize, o: &Vec<bool>) -> (f: AssertionFailure)
    requires
        o@.len() == if items@.len() <= predicates { items@.len() as int } else { predicates as int },
    ensures
        f@ == positional_predicates_failure(items@, predicates as nat, o@),
{
    if items.len() != predicates {
        let f = AssertionFailure::assemble(
            FailureKind::Matching,
            Some(crate::render::render_list(items)),
            Some(text_of("did not exactly match predicates.")),
            None,
            None,
        );
        let mut note = text_of("Number of elements (");
        let a = render_unsigned(items.len() as u64);
        push_text(&mut note, a.as_str());
        push_text(&mut note, ") does not match number of predicates (");
        let b = render_unsigned(predicates as u64);
        push_text(&mut note, b.as_str());
        push_text(&mut note, ")!");
        f.add_fact(None, note)
    } else {
        explain_mismatches(items, o)
    }
}

/// Decides `contains_exactly_matching` and explains a rejection. The returned flags hold
/// the predicates' answers that both depend on.
pub fn check_positional_predicates<T: Render, P: Fn(&T) -> bool>(items: &[T], predicates: &[P]) -> (out: (bool, AssertionFailure, Ghost<Seq<bool>>))
    requires
        positionally_callable(items@, predicates@),
    ensures
        positional_flags(items@, predicates@, out.2@),
        out.0 == (items@.len() == predicates@.len() && all_set(out.2@)),
        out.1@ == positional_predicates_failure(items@, predicates@.len(), out.2@),
{
    let n = if items.len() <= predicates.len() { items.len() } else { predicates.len() };
    let mut o: Vec<bool> = Vec::new();
    let mut i: usize = 0;
    while i < n
        invariant
            i <= n,
            n == if items@.len() <= predicates@.len() { items@.len() } else { predicates@.len() },
            o@.len() == i,
            positionally_callable(items@, predicates@),
            forall|k: int| 0 <= k < i ==> call_ensures(predicates@[k], (&items@[k],), #[trigger] o@[k]),
        decreases n - i,
    {
        let p = &predicates[i];
        assert(call_requires(predicates@[i as int], (&items@[i as int],)));
        let b = p(&items[i]);
        o.push(b);
        i = i + 1;
    }
    let ok = items.len() == predicates.len() && all_flags(&o);
    let f = explain_positional(items, predicates.len(), &o);
    (ok, f, Ghost(o@))
}

/// `o` holds, for each element, whether it passes `assertions`.
pub open spec fn satisfaction_flags<T, A: for<'x> Fn(AssertThat<&'x T>) -> AssertThat<&'x T>>(items: Seq<T>, assertions: A, o: Seq<bool>) -> bool {
    &&& o.len() == items.len()
    &&& forall|i: int| 0 <= i < items.len() ==> passes_with(assertions, &items[i], #[trigger] o[i])
}

/// Runs `assertions` on every element.
pub fn satisfaction_outcomes<T, A: for<'x> Fn(AssertThat<&'x T>) -> AssertThat<&'x T>>(items: &[T], assertions: &A) -> (o: Vec<bool>)
    requires
        forall|c: AssertThat<&T>| call_requires(*assertions, (c,)),
    ensures
        satisfaction_flags(items@, *assertions, o@),
{
    let mut o: Vec<bool> = Vec::new();
    let mut i: usize = 0;
    while i < items.len()
        invariant
            i <= items.len(),
            o@.len() == i,
            forall|c: AssertThat<&T>| call_requires(*assertions, (c,)),
            forall|k: int| 0 <= k < i ==> passes_with(*assertions, &items@[k], #[trigger] o@[k]),
        decreases items.len() - i,
    {
        let b = passes(&items[i], assertions);
        o.push(b);
        i = i + 1;
    }
    o
}

/// `m[i][j]` holds whether element `i` passes `assertions[j]`.
pub open spec fn satisfaction_matrix<T, A: for<'x> Fn(AssertThat<&'x T>) -> AssertThat<&'x T>>(items: Seq<T>, assertions: Seq<A>, m: Seq<Seq<bool>>) -> bool {
    &&& m.len() == items.len()
    &&& forall|i: int| 0 <= i < m.len() ==> (#[trigger] m[i]).len() == assertions.len()
    &&& forall|i: int, j: int|
        0 <= i < items.len() && 0 <= j < assertions.len() ==> passes_with(assertions[j], &items[i], #[trigger] m[i][j])
}

/// Runs every element of `assertions` on every element of `items`.
pub fn satisfaction_matrix_of<T, A: for<'x> Fn(AssertThat<&'x T>) -> AssertThat<&'x T>>(items: &[T], assertions: &[A]) -> (m: Vec<Vec<bool>>)
    requires
        forall|j: int, c: AssertThat<&T>| 0 <= j < assertions@.len() ==> #[trigger] call_requires(assertions@[j], (c,)),
    ensures
        satisfaction_matrix(items@, assertions@, matrix_view(m@)),
{
    let mut m: Vec<Vec<bool>> = Vec::new();
    let mut i: usize = 0;
    while i < items.len()
        invariant
            i <= items.len(),
            m@.len() == i,
            forall|j: int, c: AssertThat<&T>| 0 <= j < assertions@.len() ==> #[trigger] call_requires(assertions@[j], (c,)),
            forall|k: int| 0 <= k < i ==> (#[trigger] m@[k])@.len() == assertions@.len(),
            forall|k: int, j: int|
                0 <= k < i && 0 <= j < assertions@.len() ==> passes_with(assertions@[j], &items@[k], #[trigger] m@[k]@[j]),
        decreases items.len() - i,
    {
        let mut row: Vec<bool> = Vec::new();
        let mut j: usize = 0;
        while j < assertions.len()
            invariant
                j <= assertions.len(),
                row@.len() == j,
                i < items.len(),
                forall|q: int, c: AssertThat<&T>| 0 <= q < assertions@.len() ==> #[trigger] call_requires(assertions@[q], (c,)),
                forall|q: int| 0 <= q < j ==> passes_with(assertions@[q], &items@[i as int], #[trigger] row@[q]),
            decreases assertions.len() - j,
        {
            let a = &assertions[j];
            let b = passes(&items[i], a);
            row.push(b);
            j = j + 1;
        }
        m.push(row);
        i = i + 1;
    }
    let ghost mv = matrix_view(m@);
    assert forall|k: int| 0 <= k < mv.len() implies #[trigger] mv[k].len() == assertions@.len() by {
        assert(mv[k] == m@[k]@);
    }
    assert forall|k: int, j: int| 0 <= k < items@.len() && 0 <= j < assertions@.len() implies passes_with(assertions@[j], &items@[k], #[trigger] mv[k][j]) by {
        assert(mv[k] == m@[k]@);
    }
    m
}

/// The failure of `contains_satisfying`.
pub open spec fn none_satisfying_failure<T: Render>(items: Seq<T>) -> FailureView {
    failure_with(
        FailureKind::Predicate,
        Some(rendered_list(items)),
        Some("does not contain an element satisfying the assertions."@),
        None,
        None,
    )
}

/// The failure of `does_not_contain_satisfying`, listing the elements that passed.
pub open spec fn some_satisfying_failure<T: Render>(items: Seq<T>, o: Seq<bool>) -> FailureView {
    failure_with(
        FailureKind::Predicate,
        Some(rendered_list(items)),
        Some("contains elements satisfying the assertions: "@ + rendered_list(selected(items, o))),
        None,
        None,
    )
}

/// The failure of `contains_exactly_in_any_order_satisfying`.
pub open spec fn unordered_satisfying_failure<T: Render>(items: Seq<T>, assertions: nat, m: Seq<Seq<bool>>) -> FailureView {
    let base = failure_with(
        FailureKind::Predicate,
        Some(rendered_list(items)),
        Some("did not exactly satisfy the assertions in any order."@),
        None,
        None,
    );
    let rows = unmatched_rows(m);
    let cols = unmatched_cols(m, assertions);
    let f1 = with_listed(base, "Elements satisfying no assertion"@, items, rows);
    let f2 = if any_set(cols) {
        with_fact(f1, Some("Assertions satisfied by no element"@), decimal_text(set_count(cols) as int))
    } else {
        f1
    };
    if !any_set(rows) && !any_set(cols) {
        with_fact(f2, None, "No one-to-one assignment of elements to assertions exists."@)
    } else {
        f2
    }
}

/// Explains a failed `contains_satisfying`.
pub fn explain_none_satisfying<T: Render>(items: &[T]) -> (f: AssertionFailure)
    ensures
        f@ == none_satisfying_failure(items@),
{
    AssertionFailure::assemble(
        FailureKind::Predicate,
        Some(crate::render::render_list(items)),
        Some(text_of("does not contain an element satisfying the assertions.")),
        None,
        None,
    )
}

/// Explains a failed `does_not_contain_satisfying`.
pub fn explain_some_satisfying<T: Render>(items: &[T], o: &Vec<bool>) -> (f: AssertionFailure)
    requires
        o@.len() == items@.len(),
    ensures
        f@ == some_satisfying_failure(items@, o@),
{
    let mut relation = text_of("contains elements satisfying the assertions: ");
    let listed = render_selected(items, o);
    push_text(&mut relation, listed.as_str());
    AssertionFailure::assemble(
        FailureKind::Predicate,
        Some(crate::render::render_list(items)),
        Some(relation),
        None,
        None,
    )
}

/// Decides `contains_exactly_in_any_order_satisfying` and explains a rejection.
pub fn check_unordered_satisfying<T: Render, A: for<'x> Fn(AssertThat<&'x T>) -> AssertThat<&'x T>>(items: &[T], assertions: &[A]) -> (out: (bool, AssertionFailure, Ghost<Seq<Seq<bool>>>))
    requires
        forall|j: int, c: AssertThat<&T>| 0 <= j < assertions@.len() ==> #[trigger] call_requires(assertions@[j], (c,)),
    ensures
        satisfaction_matrix(items@, assertions@, out.2@),
        out.0 == perfectly_matchable(out.2@, assertions@.len()),
        out.1@ == unordered_satisfying_failure(items@, assertions@.len(), out.2@),
{
    let m = satisfaction_matrix_of(items, assertions);
    let ok = perfect_matching_exists(&m, assertions.len());
    let rows = unmatched_row_flags(&m);
    let cols = unmatched_col_flags(&m, assertions.len());
    let f = AssertionFailure::assemble(
        FailureKind::Predicate,
        Some(crate::render::render_list(items)),
        Some(text_of("did not exactly satisfy the assertions in any order.")),
        None,
        None,
    );
    let f = add_listed(f, "Elements satisfying no assertion", items, &rows);
    let f = if any_flag(&cols) {
        let n = count_flags(&cols);
        f.add_fact(Some(text_of("Assertions satisfied by no element")), render_unsigned(n as u64))
    } else {
        f
    };
    let f = if !any_flag(&rows) && !any_flag(&cols) {
        add_note(f, "No one-to-one assignment of elements to assertions exists.")
    } else {
        f
    };
    (ok, f, Ghost(matrix_view(m@)))
}

} // verus!
