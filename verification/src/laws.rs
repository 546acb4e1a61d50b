//! Laws that relate the library's functions to each other, stated over the models their
//! contracts use and proved from those contracts' definitions.

use vstd::prelude::*;
use vstd::std_specs::cmp::{PartialEqSpec, PartialOrdSpec};
use vstd::multiset::Multiset;
use crate::assert_that::{AssertThat, Mode};
use crate::assertions::collection::equality_matrix;
use crate::assertions::iterator::{agrees, exact_limit, exact_verdict, has_window, preview, window_equals};
use crate::assertions::partial_eq::equals;
use vstd::std_specs::iter::IteratorSpec;
use crate::assertions::partial_ord::{Relation, ordered};
use crate::assertions::range::{Edge, RangeLike, held_element_failure, missing_element_failure, range_verdict, within};
use crate::render::Render;
use crate::assertions::string::{occurs_at, text_contains, text_ends_with, text_starts_with};
use crate::failure::{FailureView, banner, report_text};
use crate::assertions::length::{HasLength, utf8_len, utf8_width};
use crate::assertions::string::{char_is_ascii_whitespace, char_is_whitespace};
use crate::render::{decimal_digits, decimal_text};
use crate::assertions::character::{
    char_is_ascii_lowercase, char_is_ascii_uppercase, chars_equal_ignoring_ascii_case,
};
use core::ops::{Range, RangeInclusive};
use std::collections::VecDeque;
use crate::matching::{is_partial_assignment, is_perfect_assignment, perfectly_matchable};

verus! {

/// A check that passes leaves the chain exactly as it was: same subject, configuration and
/// failures.
pub proof fn law_passing_check_changes_nothing<T>(a: AssertThat<T>, r: AssertThat<T>, f: FailureView)
    requires
        a.continues_as(&r, true, f),
    ensures
        r.subject() == a.subject(),
        r.mode_of() == a.mode_of(),
        r.log() == a.log(),
{
}

/// In capture mode every failed check is recorded, after the earlier ones, completed with the
/// chain's expression and context messages.
pub proof fn law_capture_mode_records_every_failure<T>(a: AssertThat<T>, r: AssertThat<T>, f: FailureView)
    requires
        a.mode_of() == Mode::Capture,
        a.continues_as(&r, false, f),
    ensures
        r.log() == a.log().push(a.in_context(f)),
        r.log().len() == a.log().len() + 1,
{
}

/// In panic mode a chain records its first failure and nothing after it: the log never holds
/// more than one failure, and once it holds one, later checks leave it unchanged.
pub proof fn law_panic_mode_stops_at_first_failure<T>(a: AssertThat<T>, r: AssertThat<T>, ok: bool, f: FailureView)
    requires
        a.mode_of() == Mode::Panic,
        a.log().len() <= 1,
        a.continues_as(&r, ok, f),
    ensures
        r.log().len() <= 1,
        a.log().len() == 1 ==> r.log() == a.log(),
        !ok && a.log().len() == 0 ==> r.log() == seq![a.in_context(f)],
{
}

/// Recording failures one after another: capture mode keeps all of them in order, panic mode
/// keeps only the first.
pub proof fn law_failures_recorded_in_turn<T>(a: AssertThat<T>, fs: Seq<FailureView>)
    ensures
        a.mode_of() == Mode::Capture ==> a.log_after_each(fs).len() == a.log().len() + fs.len(),
        a.mode_of() == Mode::Capture ==> forall|i: int|
            0 <= i < fs.len() ==> #[trigger] a.log_after_each(fs)[a.log().len() + i] == a.in_context(fs[i]),
        a.mode_of() == Mode::Capture ==> a.log_after_each(fs).take(a.log().len() as int) == a.log(),
        a.mode_of() == Mode::Panic && a.log().len() <= 1 ==> a.log_after_each(fs).len() <= 1,
        a.mode_of() == Mode::Panic && a.log().len() == 0 && fs.len() > 0 ==> a.log_after_each(fs) == seq![a.in_context(fs[0])],
    decreases fs.len(),
{
    if fs.len() > 0 {
        let init = fs.drop_last();
        law_failures_recorded_in_turn(a, init);
        if a.mode_of() == Mode::Capture {
            assert forall|i: int| 0 <= i < fs.len() implies #[trigger] a.log_after_each(fs)[a.log().len() + i] == a.in_context(fs[i]) by {
                if i < fs.len() - 1 {
                    assert(init[i] == fs[i]);
                    assert(a.log_after_each(init)[a.log().len() + i] == a.in_context(init[i]));
                }
            }
            assert(a.log_after_each(fs).take(a.log().len() as int) =~= a.log_after_each(init).take(a.log().len() as int));
        }
        if a.mode_of() == Mode::Panic && a.log().len() == 0 && init.len() > 0 {
            assert(init[0] == fs[0]);
        }
        if a.mode_of() == Mode::Panic && a.log().len() == 0 && init.len() == 0 {
            assert(a.log_after_each(init) == a.log());
        }
    }
}

/// Every report opens and closes with the banner line.
pub proof fn law_report_is_framed_by_banners(f: FailureView)
    ensures
        report_text(f).take((banner().len() + 1) as int) == banner() + "\n"@,
        report_text(f).skip((report_text(f).len() - banner().len() - 1) as int) == banner() + "\n"@,
{
    let body = crate::failure::joined(crate::failure::report_sections(f), "\n\n"@);
    reveal_strlit("\n");
    let nl = "\n"@;
    let b = banner();
    let t = report_text(f);
    assert(t == b + nl + body + nl + b + nl);
    let edge = b + nl;
    let rest = body + nl + edge;
    assert(b + nl + body + nl + b + nl =~= edge + rest);
    assert((edge + rest).take(edge.len() as int) =~= edge);
    let front = b + nl + body + nl;
    assert(b + nl + body + nl + b + nl =~= front + edge);
    assert((front + edge).skip(front.len() as int) =~= edge);
}

/// An iterator that yields exactly the expected elements in order also yields them in any
/// order: the comparison matrix of an exact match has a perfect assignment, the diagonal.
pub proof fn law_exact_order_implies_any_order<T: PartialEq<E>, E>(drawn: Seq<T>, expected: Seq<E>, m: Seq<Seq<bool>>)
    requires
        T::obeys_eq_spec(),
        expected.len() <= usize::MAX,
        drawn.len() == expected.len(),
        window_equals(drawn, 0, expected),
        equality_matrix(drawn, expected, m),
    ensures
        perfectly_matchable(m, expected.len()),
{
    let a = Seq::new(expected.len(), |i: int| i as usize);
    assert forall|i: int| 0 <= i < a.len() implies (#[trigger] a[i]) < expected.len() && m[i][a[i] as int] by {
        assert(a[i] == i);
        assert(crate::assertions::partial_eq::equals(&drawn[0 + i], &expected[i]));
        assert(m[i][i] == crate::assertions::partial_eq::equals(&drawn[i], &expected[i]));
    }
    assert forall|i: int, j: int| 0 <= i < j < a.len() implies #[trigger] a[i] != #[trigger] a[j] by {
        assert(a[i] == i && a[j] == j);
    }
    assert(is_perfect_assignment(m, expected.len(), a));
}

/// Exact contents also make the expected elements a prefix, a suffix and a contiguous run of
/// what was yielded.
pub proof fn law_exact_contents_imply_prefix_suffix_and_run<T: PartialEq<E>, E>(drawn: Seq<T>, expected: Seq<E>)
    requires
        drawn.len() == expected.len(),
        window_equals(drawn, 0, expected),
    ensures
        window_equals(drawn, drawn.len() - expected.len(), expected),
        has_window(drawn, expected),
{
}

/// A string that starts or ends with a text contains it.
pub proof fn law_prefix_and_suffix_are_contained(s: Seq<char>, t: Seq<char>)
    ensures
        text_starts_with(s, t) ==> text_contains(s, t),
        text_ends_with(s, t) ==> text_contains(s, t),
{
    if text_starts_with(s, t) {
        assert(occurs_at(s, t, 0));
    }
    if text_ends_with(s, t) {
        assert(occurs_at(s, t, s.len() - t.len()));
    }
}

/// For integers, the ordering assertions decide exactly the order of the numbers.
pub proof fn law_integer_ordering(x: i64, y: i64)
    ensures
        ordered(&x, &y, Relation::Less) <==> x < y,
        ordered(&x, &y, Relation::LessOrEqual) <==> x <= y,
        ordered(&x, &y, Relation::Greater) <==> x > y,
        ordered(&x, &y, Relation::GreaterOrEqual) <==> x >= y,
{
}

/// For integers, a range holds a value exactly when the value is not below an included lower
/// end, above an excluded lower end, above an included upper end or at or above an excluded
/// upper end; a missing end bounds nothing.
pub proof fn law_integer_range_membership(lower: Edge<i64>, upper: Edge<i64>, x: i64)
    ensures
        within(lower, upper, &x) <==> (match lower {
            Edge::Included(s) => s <= x,
            Edge::Excluded(s) => s < x,
            Edge::Unbounded => true,
        } && match upper {
            Edge::Included(e) => x <= e,
            Edge::Excluded(e) => x < e,
            Edge::Unbounded => true,
        }),
{
}

/// `p` and `q` are permutations of `0..n`, each undoing the other.
pub open spec fn inverse_permutations(p: Seq<usize>, q: Seq<usize>, n: nat) -> bool {
    &&& p.len() == n
    &&& q.len() == n
    &&& forall|i: int| 0 <= i < n ==> (#[trigger] p[i]) < n && q[p[i] as int] == i
    &&& forall|i: int| 0 <= i < n ==> (#[trigger] q[i]) < n && p[q[i] as int] == i
}

proof fn lemma_reordered_rows_stay_matchable(m: Seq<Seq<bool>>, m2: Seq<Seq<bool>>, n: nat, p: Seq<usize>, q: Seq<usize>)
    requires
        m.len() == n,
        m2.len() == n,
        inverse_permutations(p, q, n),
        forall|i: int, j: int| 0 <= i < n && 0 <= j < n ==> #[trigger] m2[i][j] == m[p[i] as int][j],
        perfectly_matchable(m, n),
    ensures
        perfectly_matchable(m2, n),
{
    let a = choose|a: Seq<usize>| is_perfect_assignment(m, n, a);
    let a2 = Seq::new(n, |i: int| a[p[i] as int]);
    assert forall|i: int| 0 <= i < a2.len() implies (#[trigger] a2[i]) < n && m2[i][a2[i] as int] by {
        let k = p[i] as int;
        assert(a[k] < n && m[k][a[k] as int]);
        assert(m2[i][a[k] as int] == m[k][a[k] as int]);
    }
    assert forall|i: int, j: int| 0 <= i < j < a2.len() implies #[trigger] a2[i] != #[trigger] a2[j] by {
        let ki = p[i] as int;
        let kj = p[j] as int;
        assert(q[ki] == i && q[kj] == j);
        assert(ki != kj);
        if ki < kj {
            assert(a[ki] != a[kj]);
        } else {
            assert(a[kj] != a[ki]);
        }
    }
    assert(is_partial_assignment(m2, n, a2));
    assert(is_perfect_assignment(m2, n, a2));
}

/// "In any order" means it: yielding the same elements in another order does not change the
/// verdict, as far as `T`'s `PartialEq` follows its specification.
pub proof fn law_any_order_ignores_the_order_of_elements<T: PartialEq<E>, E>(
    drawn: Seq<T>,
    reordered: Seq<T>,
    expected: Seq<E>,
    m: Seq<Seq<bool>>,
    m2: Seq<Seq<bool>>,
    p: Seq<usize>,
    q: Seq<usize>,
)
    requires
        T::obeys_eq_spec(),
        drawn.len() == expected.len(),
        reordered.len() == drawn.len(),
        inverse_permutations(p, q, drawn.len()),
        forall|i: int| 0 <= i < drawn.len() ==> #[trigger] reordered[i] == drawn[p[i] as int],
        equality_matrix(drawn, expected, m),
        equality_matrix(reordered, expected, m2),
    ensures
        perfectly_matchable(m, expected.len()) == perfectly_matchable(m2, expected.len()),
{
    let n = expected.len();
    assert forall|i: int, j: int| 0 <= i < n && 0 <= j < n implies #[trigger] m2[i][j] == m[p[i] as int][j] by {
        assert(reordered[i] == drawn[p[i] as int]);
        assert(m2[i][j] == crate::assertions::partial_eq::equals(&reordered[i], &expected[j]));
        assert(m[p[i] as int][j] == crate::assertions::partial_eq::equals(&drawn[p[i] as int], &expected[j]));
    }
    assert forall|i: int, j: int| 0 <= i < n && 0 <= j < n implies #[trigger] m[i][j] == m2[q[i] as int][j] by {
        assert(p[q[i] as int] == i);
        assert(m2[q[i] as int][j] == m[p[q[i] as int] as int][j]);
    }
    if perfectly_matchable(m, n) {
        lemma_reordered_rows_stay_matchable(m, m2, n, p, q);
    }
    if perfectly_matchable(m2, n) {
        lemma_reordered_rows_stay_matchable(m2, m, n, q, p);
    }
}

/// The length of a string is counted in bytes: at least one and at most four per character,
/// so it is zero exactly for the empty string.
pub proof fn law_string_length_counts_bytes(s: Seq<char>)
    ensures
        s.len() <= utf8_len(s) <= 4 * s.len(),
        (utf8_len(s) == 0) == (s.len() == 0),
    decreases s.len(),
{
    if s.len() > 0 {
        law_string_length_counts_bytes(s.drop_last());
    }
}

/// `a` pairs each element of `items` with an equal element of `expected`, no two with the
/// same one.
pub open spec fn equal_pairing<T>(items: Seq<T>, expected: Seq<T>, a: Seq<usize>) -> bool {
    &&& items.len() == expected.len()
    &&& a.len() == items.len()
    &&& forall|i: int| 0 <= i < a.len() ==> (#[trigger] a[i]) < expected.len() && items[i] == expected[a[i] as int]
    &&& forall|i: int, j: int| 0 <= i < j < a.len() ==> #[trigger] a[i] != #[trigger] a[j]
}

proof fn lemma_remove_insert_same<T>(m: Multiset<T>, e: T)
    requires
        m.count(e) > 0,
    ensures
        m.remove(e).insert(e) =~= m,
{
    broadcast use vstd::multiset::group_multiset_axioms;
}

proof fn lemma_insert_remove_same<T>(m: Multiset<T>, e: T)
    ensures
        m.insert(e).remove(e) =~= m,
{
    broadcast use vstd::multiset::group_multiset_axioms;
}

proof fn lemma_pairing_gives_equal_multisets<T>(items: Seq<T>, expected: Seq<T>, a: Seq<usize>)
    requires
        equal_pairing(items, expected, a),
    ensures
        items.to_multiset() == expected.to_multiset(),
    decreases items.len(),
{
    broadcast use vstd::seq_lib::group_to_multiset_ensures;
    let n = items.len();
    if n == 0 {
        assert(items.to_multiset() =~= Multiset::empty());
        assert(expected.to_multiset() =~= Multiset::empty());
    } else {
        let k = n - 1;
        let j = a[k] as int;
        let rest = items.drop_last();
        let others = expected.remove(j);
        let b = Seq::new((n - 1) as nat, |i: int| if a[i] < a[k] { a[i] } else { (a[i] - 1) as usize });
        assert forall|i: int| 0 <= i < b.len() implies (#[trigger] b[i]) < others.len() && rest[i] == others[b[i] as int] by {
            assert(a[i] != a[k]);
            assert(rest[i] == items[i]);
        }
        assert forall|i: int, q: int| 0 <= i < q < b.len() implies #[trigger] b[i] != #[trigger] b[q] by {
            assert(a[i] != a[q]);
            assert(a[i] != a[k]);
            assert(a[q] != a[k]);
        }
        lemma_pairing_gives_equal_multisets(rest, others, b);
        let e = items[k];
        assert(items =~= rest.push(e));
        assert(expected[j] == e);
        assert(others.to_multiset() =~= expected.to_multiset().remove(e));
        assert(expected.contains(e));
        lemma_remove_insert_same(expected.to_multiset(), e);
    }
}

proof fn lemma_equal_multisets_give_pairing<T>(items: Seq<T>, expected: Seq<T>) -> (a: Seq<usize>)
    requires
        items.to_multiset() == expected.to_multiset(),
        expected.len() <= usize::MAX,
    ensures
        equal_pairing(items, expected, a),
    decreases items.len(),
{
    broadcast use vstd::seq_lib::group_to_multiset_ensures;
    let n = items.len();
    assert(items.len() == items.to_multiset().len());
    assert(expected.len() == expected.to_multiset().len());
    if n == 0 {
        Seq::empty()
    } else {
        let k = n - 1;
        let e = items[k];
        let rest = items.drop_last();
        assert(items =~= rest.push(e));
        assert(items.contains(e));
        assert(expected.to_multiset().count(e) > 0);
        assert(expected.contains(e));
        let j = choose|j: int| 0 <= j < expected.len() && expected[j] == e;
        let others = expected.remove(j);
        assert(others.to_multiset() =~= expected.to_multiset().remove(e));
        lemma_insert_remove_same(rest.to_multiset(), e);
        assert(rest.to_multiset() =~= items.to_multiset().remove(e));
        let b = lemma_equal_multisets_give_pairing(rest, others);
        let a = Seq::new(n, |i: int| if i == k { j as usize } else if b[i] < j { b[i] } else { (b[i] + 1) as usize });
        assert forall|i: int| 0 <= i < a.len() implies (#[trigger] a[i]) < expected.len() && items[i] == expected[a[i] as int] by {
            if i < k {
                assert(rest[i] == others[b[i] as int]);
                assert(items[i] == rest[i]);
            }
        }
        assert forall|i: int, q: int| 0 <= i < q < a.len() implies #[trigger] a[i] != #[trigger] a[q] by {
            if q < k {
                assert(b[i] != b[q]);
            }
        }
        a
    }
}

/// "In any order" is multiset equality: when equality of `T` is identity, the yielded
/// elements can be matched one to one with the expected ones exactly when both hold the same
/// elements the same number of times.
pub proof fn law_any_order_is_multiset_equality<T: PartialEq>(drawn: Seq<T>, expected: Seq<T>, m: Seq<Seq<bool>>)
    requires
        T::obeys_eq_spec(),
        forall|x: T, y: T| #[trigger] crate::assertions::partial_eq::equals(&x, &y) <==> x == y,
        expected.len() <= usize::MAX,
        equality_matrix(drawn, expected, m),
    ensures
        perfectly_matchable(m, expected.len()) <==> drawn.to_multiset() == expected.to_multiset(),
{
    broadcast use vstd::seq_lib::group_to_multiset_ensures;
    let n = expected.len();
    if perfectly_matchable(m, n) {
        let a = choose|a: Seq<usize>| is_perfect_assignment(m, n, a);
        assert forall|i: int| 0 <= i < a.len() implies (#[trigger] a[i]) < expected.len() && drawn[i] == expected[a[i] as int] by {
            assert(m[i][a[i] as int]);
            assert(m[i][a[i] as int] == crate::assertions::partial_eq::equals(&drawn[i], &expected[a[i] as int]));
        }
        assert(equal_pairing(drawn, expected, a));
        lemma_pairing_gives_equal_multisets(drawn, expected, a);
    }
    if drawn.to_multiset() == expected.to_multiset() {
        let a = lemma_equal_multisets_give_pairing(drawn, expected);
        assert forall|i: int| 0 <= i < a.len() implies (#[trigger] a[i]) < n && m[i][a[i] as int] by {
            assert(drawn[i] == expected[a[i] as int]);
            assert(crate::assertions::partial_eq::equals(&drawn[i], &expected[a[i] as int]));
        }
        assert(is_partial_assignment(m, n, a));
        assert(is_perfect_assignment(m, n, a));
    }
}

/// However long an iterator was drawn, a failure shows at most its last 16 elements, ending
/// with the last one drawn (the decisive one), and all of them when there are at most 16.
pub proof fn law_failure_preview_is_capped<T>(drawn: Seq<T>)
    ensures
        preview(drawn).len() <= 16,
        drawn.len() <= 16 ==> preview(drawn) == drawn,
        drawn.len() > 0 ==> preview(drawn).last() == drawn.last(),
        drawn.len() > 16 ==> preview(drawn) == drawn.skip(drawn.len() - 16),
{
    if drawn.len() > 16 {
        assert(preview(drawn) =~= drawn.skip(drawn.len() - 16));
    }
}

/// Range membership is decided: two checks of one value against one range that record the
/// same failure when they fail (`contains_element` and its fluent name `contain_element`, or
/// `does_not_contain_element` and `not_contain_element`) leave the chain alike, where the
/// bound type's order follows its specification or the range has no edges.
pub proof fn law_range_membership_is_decided<B: PartialOrd, Rg: RangeLike<B>>(
    a: AssertThat<Rg>,
    x: B,
    negative: bool,
    f: FailureView,
    first: AssertThat<Rg>,
    first_ok: bool,
    second: AssertThat<Rg>,
    second_ok: bool,
)
    requires
        B::obeys_partial_cmp_spec() || (a.subject().lower() is Unbounded && a.subject().upper() is Unbounded),
        range_verdict(a.subject().lower(), a.subject().upper(), &x, first_ok != negative),
        a.continues_as(&first, first_ok, f),
        range_verdict(a.subject().lower(), a.subject().upper(), &x, second_ok != negative),
        a.continues_as(&second, second_ok, f),
    ensures
        first.log() == second.log(),
        first.subject() == second.subject(),
        first.assertion_count() == second.assertion_count(),
{
}

/// `does_not_contain_element` records a failure exactly when `contains_element` does not: run
/// each on its own on one capture-mode chain, the two add exactly one failure between them,
/// where the bound type's order follows its specification or the range has no edges.
pub proof fn law_does_not_contain_is_the_complement<B: PartialOrd + Render, Rg: RangeLike<B>>(
    a: AssertThat<Rg>,
    x: B,
    with_contains: AssertThat<Rg>,
    contains_ok: bool,
    with_does_not_contain: AssertThat<Rg>,
    does_not_contain_ok: bool,
)
    requires
        B::obeys_partial_cmp_spec() || (a.subject().lower() is Unbounded && a.subject().upper() is Unbounded),
        a.mode_of() == Mode::Capture,
        range_verdict(a.subject().lower(), a.subject().upper(), &x, contains_ok),
        a.continues_as(&with_contains, contains_ok, missing_element_failure(a.subject().lower(), a.subject().upper(), x)),
        range_verdict(a.subject().lower(), a.subject().upper(), &x, !does_not_contain_ok),
        a.continues_as(&with_does_not_contain, does_not_contain_ok, held_element_failure(a.subject().lower(), a.subject().upper(), x)),
    ensures
        contains_ok != does_not_contain_ok,
        with_contains.log().len() + with_does_not_contain.log().len() == 2 * a.log().len() + 1,
{
}

/// The number of integers `i` with `lo <= i < hi`, counted one by one.
pub open spec fn integers_between(lo: int, hi: int) -> nat
    decreases hi - lo,
{
    if lo >= hi {
        0
    } else {
        1 + integers_between(lo + 1, hi)
    }
}

/// Counting the integers from `lo` up to `hi` gives `hi - lo`, or nothing when `hi <= lo`.
pub proof fn lemma_integers_between(lo: int, hi: int)
    ensures
        integers_between(lo, hi) == if lo < hi { hi - lo } else { 0 },
    decreases hi - lo,
{
    if lo < hi {
        lemma_integers_between(lo + 1, hi);
    }
}

/// A half-open range `start..end` has as many elements as there are integers `i` with
/// `start <= i < end`, for every integer type the library measures.
pub proof fn law_range_length_counts_its_integers(
    a: Range<u8>,
    b: Range<u16>,
    c: Range<u32>,
    d: Range<u64>,
    e: Range<usize>,
    f: Range<i8>,
    g: Range<i16>,
    h: Range<i32>,
    i: Range<i64>,
)
    ensures
        a.element_count() == integers_between(a.start as int, a.end as int),
        b.element_count() == integers_between(b.start as int, b.end as int),
        c.element_count() == integers_between(c.start as int, c.end as int),
        d.element_count() == integers_between(d.start as int, d.end as int),
        e.element_count() == integers_between(e.start as int, e.end as int),
        f.element_count() == integers_between(f.start as int, f.end as int),
        g.element_count() == integers_between(g.start as int, g.end as int),
        h.element_count() == integers_between(h.start as int, h.end as int),
        i.element_count() == integers_between(i.start as int, i.end as int),
{
    lemma_integers_between(a.start as int, a.end as int);
    lemma_integers_between(b.start as int, b.end as int);
    lemma_integers_between(c.start as int, c.end as int);
    lemma_integers_between(d.start as int, d.end as int);
    lemma_integers_between(e.start as int, e.end as int);
    lemma_integers_between(f.start as int, f.end as int);
    lemma_integers_between(g.start as int, g.end as int);
    lemma_integers_between(h.start as int, h.end as int);
    lemma_integers_between(i.start as int, i.end as int);
}

/// An inclusive range `start..=end` has as many elements as there are integers `i` with
/// `start <= i <= end`, and none once it was run to its end, for every integer type the
/// library measures.
pub proof fn law_inclusive_range_length_counts_its_integers(
    a: RangeInclusive<u8>,
    b: RangeInclusive<u16>,
    c: RangeInclusive<u32>,
    d: RangeInclusive<u64>,
    e: RangeInclusive<usize>,
    f: RangeInclusive<i8>,
    g: RangeInclusive<i16>,
    h: RangeInclusive<i32>,
    i: RangeInclusive<i64>,
)
    ensures
        a.element_count() == if a@.exhausted { 0 } else { integers_between(a@.start as int, a@.end + 1) },
        b.element_count() == if b@.exhausted { 0 } else { integers_between(b@.start as int, b@.end + 1) },
        c.element_count() == if c@.exhausted { 0 } else { integers_between(c@.start as int, c@.end + 1) },
        d.element_count() == if d@.exhausted { 0 } else { integers_between(d@.start as int, d@.end + 1) },
        e.element_count() == if e@.exhausted { 0 } else { integers_between(e@.start as int, e@.end + 1) },
        f.element_count() == if f@.exhausted { 0 } else { integers_between(f@.start as int, f@.end + 1) },
        g.element_count() == if g@.exhausted { 0 } else { integers_between(g@.start as int, g@.end + 1) },
        h.element_count() == if h@.exhausted { 0 } else { integers_between(h@.start as int, h@.end + 1) },
        i.element_count() == if i@.exhausted { 0 } else { integers_between(i@.start as int, i@.end + 1) },
{
    lemma_integers_between(a@.start as int, a@.end + 1);
    lemma_integers_between(b@.start as int, b@.end + 1);
    lemma_integers_between(c@.start as int, c@.end + 1);
    lemma_integers_between(d@.start as int, d@.end + 1);
    lemma_integers_between(e@.start as int, e@.end + 1);
    lemma_integers_between(f@.start as int, f@.end + 1);
    lemma_integers_between(g@.start as int, g@.end + 1);
    lemma_integers_between(h@.start as int, h@.end + 1);
    lemma_integers_between(i@.start as int, i@.end + 1);
}

/// Ignoring ASCII case, two characters are equal exactly when they are the same character, or
/// one is an ASCII uppercase letter `A` to `Z` and the other the lowercase letter 32 code
/// points above it; every other character, non-ASCII letters included, matches only itself.
pub proof fn law_ascii_case_folding_pairs_letters(a: char, b: char)
    ensures
        chars_equal_ignoring_ascii_case(a, b) <==> (
            a as u32 == b as u32
            || ('A' as u32 <= a as u32 && a as u32 <= 'Z' as u32 && b as u32 == a as u32 + 32)
            || ('A' as u32 <= b as u32 && b as u32 <= 'Z' as u32 && a as u32 == b as u32 + 32)
        ),
{
}

/// Every ASCII uppercase letter equals its lowercase letter when ASCII case is ignored.
pub proof fn law_uppercase_letters_fold_to_lowercase(c: char)
    requires
        'A' <= c && c <= 'Z',
    ensures
        chars_equal_ignoring_ascii_case(c, ((c as u32 + 32) as u8) as char),
{
}

/// A character is an ASCII lowercase letter exactly when it lies from `a` to `z`, and an
/// ASCII uppercase letter exactly when it lies from `A` to `Z`; no character is both.
pub proof fn law_ascii_letter_classes(c: char)
    ensures
        char_is_ascii_lowercase(c) <==> ('a' <= c && c <= 'z'),
        char_is_ascii_uppercase(c) <==> ('A' <= c && c <= 'Z'),
        !(char_is_ascii_lowercase(c) && char_is_ascii_uppercase(c)),
{
}

/// The number a string of decimal digit characters stands for, most significant first.
pub open spec fn digits_value(s: Seq<char>) -> int
    decreases s.len(),
{
    if s.len() == 0 {
        0
    } else {
        digits_value(s.drop_last()) * 10 + (s.last() as u32 - '0' as u32)
    }
}

/// Every character of `s` is a decimal digit.
pub open spec fn all_digits(s: Seq<char>) -> bool {
    forall|k: int| 0 <= k < s.len() ==> '0' <= #[trigger] s[k] && s[k] <= '9'
}

/// The digit character for `d` stands for `d`.
proof fn lemma_digit_char_value(d: nat)
    requires
        d < 10,
    ensures
        crate::render::digit_char(d) as u32 - '0' as u32 == d,
        '0' <= crate::render::digit_char(d) && crate::render::digit_char(d) <= '9',
        d > 0 ==> crate::render::digit_char(d) != '0',
{
}

/// The decimal digits of `n` are digit characters, have no leading zero, and read back as `n`.
pub proof fn law_decimal_digits_read_back(n: nat)
    ensures
        decimal_digits(n).len() >= 1,
        all_digits(decimal_digits(n)),
        n > 0 ==> decimal_digits(n)[0] != '0',
        digits_value(decimal_digits(n)) == n,
    decreases n,
{
    if n < 10 {
        lemma_digit_char_value(n);
        assert(decimal_digits(n) == seq![crate::render::digit_char(n)]);
        assert(seq![crate::render::digit_char(n)].drop_last() =~= Seq::<char>::empty());
        assert(digits_value(decimal_digits(n)) == digits_value(Seq::<char>::empty()) * 10
            + (crate::render::digit_char(n) as u32 - '0' as u32));
    } else {
        law_decimal_digits_read_back(n / 10);
        lemma_digit_char_value(n % 10);
        assert((n / 10) * 10 + n % 10 == n) by (nonlinear_arith);
        let d = decimal_digits(n);
        let head = decimal_digits(n / 10);
        assert(d == head.push(crate::render::digit_char(n % 10)));
        assert(d.drop_last() =~= head);
        assert(d.last() == crate::render::digit_char(n % 10));
        assert(digits_value(d) == digits_value(head) * 10 + (crate::render::digit_char(n % 10) as u32 - '0' as u32));
        assert(d[0] == head[0]);
        assert forall|k: int| 0 <= k < d.len() implies '0' <= #[trigger] d[k] && d[k] <= '9' by {
            if k < head.len() {
                assert(d[k] == head[k]);
            }
        }
    }
}

/// An integer is written as its digits, led by `-` exactly when it is negative.
pub proof fn law_decimal_text_reads_back(i: int)
    ensures
        (decimal_text(i)[0] == '-') == (i < 0),
        i < 0 ==> digits_value(decimal_text(i).drop_first()) == -i,
        i >= 0 ==> digits_value(decimal_text(i)) == i,
        i >= 0 ==> all_digits(decimal_text(i)),
{
    if i < 0 {
        law_decimal_digits_read_back((-i) as nat);
        assert(decimal_text(i).drop_first() =~= decimal_digits((-i) as nat));
    } else {
        law_decimal_digits_read_back(i as nat);
        assert('0' <= decimal_digits(i as nat)[0]);
    }
}

/// The ASCII whitespace characters are the ASCII characters with the Unicode `White_Space`
/// property other than line tabulation (U+000B).
pub proof fn law_ascii_whitespace_within_unicode_whitespace(c: char)
    ensures
        char_is_ascii_whitespace(c) <==> (char_is_whitespace(c) && c < '\u{80}' && c != '\u{0B}'),
{
}

/// A string of ASCII characters takes one byte per character.
pub proof fn law_ascii_text_takes_one_byte_per_character(s: Seq<char>)
    requires
        forall|k: int| 0 <= k < s.len() ==> (#[trigger] s[k] as u32) < 0x80,
    ensures
        utf8_len(s) == s.len(),
    decreases s.len(),
{
    if s.len() > 0 {
        assert forall|k: int| 0 <= k < s.drop_last().len() implies (#[trigger] s.drop_last()[k] as u32) < 0x80 by {
            assert(s.drop_last()[k] == s[k]);
        }
        law_ascii_text_takes_one_byte_per_character(s.drop_last());
        assert(s.last() == s[s.len() - 1]);
    }
}

/// The characters with the Unicode `White_Space` property: tab through carriage return, space,
/// next line, no-break space, ogham space mark, en quad through hair space, line and paragraph
/// separator, narrow no-break space, medium mathematical space and ideographic space.
pub proof fn law_whitespace_characters(c: char)
    ensures
        char_is_whitespace(c) <==> (
            ('\t' <= c && c <= '\r') || c == ' ' || c == '\u{85}' || c == '\u{A0}' || c == '\u{1680}'
            || ('\u{2000}' <= c && c <= '\u{200A}') || c == '\u{2028}' || c == '\u{2029}'
            || c == '\u{202F}' || c == '\u{205F}' || c == '\u{3000}'
        ),
{
}

/// UTF-8 takes one byte for the ASCII characters, two below U+0800, three below U+10000 and
/// four for the rest.
pub proof fn law_utf8_width_by_code_point(c: char)
    ensures
        utf8_width(c) == 1 <==> c < '\u{80}',
        utf8_width(c) == 2 <==> ('\u{80}' <= c && c < '\u{800}'),
        utf8_width(c) == 3 <==> ('\u{800}' <= c && c < '\u{10000}'),
        utf8_width(c) == 4 <==> '\u{10000}' <= c,
{
}

/// An exact check that draws the elements (the iterator's reported size being no exact
/// length other than the expected one) passes exactly when the iterator yields elements equal
/// to the expected ones, position by position, and then ends, for an iterator that follows
/// vstd's iteration laws and elements whose equality follows its specification. (With
/// `usize::MAX` expected elements the check draws no further element, so a longer iterator is
/// not told apart.)
pub proof fn law_exact_check_decides_by_the_elements<T: PartialEq<E>, E, I: Iterator<Item = T>>(
    iter: I,
    expected: Seq<E>,
    drawn: Seq<T>,
    ok: bool,
)
    requires
        T::obeys_eq_spec(),
        iter.obeys_prophetic_iter_laws(),
        expected.len() < usize::MAX,
        exact_verdict(drawn, expected, ok),
        ok ==> drawn.len() == expected.len(),
        drawn.len() <= exact_limit(expected.len()),
        drawn.len() <= iter.remaining().len(),
        drawn == iter.remaining().take(drawn.len() as int),
        (agrees(drawn, expected) && drawn.len() < exact_limit(expected.len())) ==> drawn == iter.remaining(),
    ensures
        ok == (iter.remaining().len() == expected.len()
            && forall|j: int| 0 <= j < expected.len() ==> equals(#[trigger] &iter.remaining()[j], &expected[j])),
{
    let rem = iter.remaining();
    if ok {
        assert(window_equals(drawn, 0, expected));
        assert forall|j: int| 0 <= j < drawn.len() && j < expected.len() implies equals(#[trigger] &drawn[j], &expected[j]) by {
            assert(equals(&drawn[0 + j], &expected[j]));
        }
        assert(drawn == rem);
    } else {
        if rem.len() == expected.len() && forall|j: int| 0 <= j < expected.len() ==> equals(#[trigger] &rem[j], &expected[j]) {
            assert forall|j: int| 0 <= j < drawn.len() && j < expected.len() implies equals(#[trigger] &drawn[j], &expected[j]) by {
                assert(drawn[j] == rem[j]);
            }
            if drawn.len() < exact_limit(expected.len()) {
                assert(drawn == rem);
            } else {
                assert(drawn.len() == rem.len());
                assert(drawn =~= rem);
            }
            assert forall|j: int| 0 <= j < expected.len() implies equals(&drawn[0 + j], &expected[j]) by {
                assert(drawn[j] == rem[j]);
            }
            assert(window_equals(drawn, 0, expected));
        }
    }
}

/// A collection's length is the number of elements it holds; an array's is its size; a
/// string's is the number of bytes its characters take in UTF-8.
pub proof fn law_collection_length_counts_elements<T, const N: usize>(
    v: Vec<T>,
    d: VecDeque<T>,
    a: [T; N],
    s: &[T],
    text: String,
    t: &str,
)
    ensures
        v.element_count() == v@.len(),
        (&v).element_count() == v@.len(),
        d.element_count() == d@.len(),
        a.element_count() == a@.len(),
        (&a).element_count() == a@.len(),
        s.element_count() == s@.len(),
        text.element_count() == utf8_len(text@),
        (&text).element_count() == utf8_len(text@),
        t.element_count() == utf8_len(t@),
{
    vstd::array::array_len_matches_n(&a);
}

/// A text starts with what was put before the rest, ends with what was put after it, and
/// contains what was put in its middle; no text contains a longer one.
pub proof fn law_texts_are_found_where_they_were_put(p: Seq<char>, e: Seq<char>, q: Seq<char>)
    ensures
        text_starts_with(p + q, p),
        text_ends_with(p + q, q),
        text_contains(p + e + q, e),
        e.len() > p.len() ==> !text_contains(p, e),
{
    assert((p + q).subrange(0, p.len() as int) =~= p);
    assert((p + q).subrange((p + q).len() - q.len(), (p + q).len() as int) =~= q);
    assert((p + e + q).subrange(p.len() as int, (p.len() + e.len()) as int) =~= e);
    assert(occurs_at(p + e + q, e, p.len() as int));
}

} // verus!
