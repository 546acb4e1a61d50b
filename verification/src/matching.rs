//! One-to-one assignment of elements to criteria: the decision behind the
//! "in any order" assertions. Row `i` of a compatibility matrix says which criteria
//! element `i` satisfies; a perfect assignment gives every element its own criterion.

use vstd::prelude::*;

verus! {

/// Every row of `m` has `cols` entries.
pub open spec fn rectangular(m: Seq<Seq<bool>>, cols: nat) -> bool {
    forall|i: int| 0 <= i < m.len() ==> #[trigger] m[i].len() == cols
}

/// `a` assigns to each of its rows a distinct column that the row is compatible with.
pub open spec fn is_partial_assignment(m: Seq<Seq<bool>>, cols: nat, a: Seq<usize>) -> bool {
    &&& a.len() <= m.len()
    &&& forall|i: int| 0 <= i < a.len() ==> (#[trigger] a[i]) < cols && m[i][a[i] as int]
    &&& forall|i: int, j: int| 0 <= i < j < a.len() ==> #[trigger] a[i] != #[trigger] a[j]
}

/// `a` assigns every row of `m` its own compatible column, and every column is used:
/// a perfect matching between rows and columns.
pub open spec fn is_perfect_assignment(m: Seq<Seq<bool>>, cols: nat, a: Seq<usize>) -> bool {
    &&& m.len() == cols
    &&& a.len() == m.len()
    &&& is_partial_assignment(m, cols, a)
}

/// Whether the rows and columns of `m` can be matched one to one along compatible entries.
pub open spec fn perfectly_matchable(m: Seq<Seq<bool>>, cols: nat) -> bool {
    exists|a: Seq<usize>| is_perfect_assignment(m, cols, a)
}

/// `used` marks exactly the columns that `a` assigns.
pub open spec fn marks_used(used: Seq<bool>, a: Seq<usize>, cols: nat) -> bool {
    &&& used.len() == cols
    &&& forall|j: int| 0 <= j < cols ==> (#[trigger] used[j] <==> exists|i: int| 0 <= i < a.len() && a[i] == j)
}

/// No perfect assignment starts with `prefix`.
pub open spec fn dead_end(m: Seq<Seq<bool>>, cols: nat, prefix: Seq<usize>) -> bool {
    forall|a: Seq<usize>| #[trigger] is_perfect_assignment(m, cols, a) ==> a.take(prefix.len() as int) != prefix
}

fn extend(m: &Vec<Vec<bool>>, cols: usize, assign: &mut Vec<usize>, used: &mut Vec<bool>) -> (found: bool)
    requires
        m@.len() == cols,
        rectangular(m@.map_values(|r: Vec<bool>| r@), cols as nat),
        is_partial_assignment(m@.map_values(|r: Vec<bool>| r@), cols as nat, old(assign)@),
        marks_used(old(used)@, old(assign)@, cols as nat),
    ensures
        found ==> is_perfect_assignment(m@.map_values(|r: Vec<bool>| r@), cols as nat, final(assign)@),
        !found ==> dead_end(m@.map_values(|r: Vec<bool>| r@), cols as nat, old(assign)@),
        !found ==> final(assign)@ == old(assign)@ && final(used)@ == old(used)@,
    decreases m@.len() - old(assign)@.len(),
{
    let ghost mv = m@.map_values(|r: Vec<bool>| r@);
    let k = assign.len();
    if k == m.len() {
        return true;
    }
    let ghost prefix = assign@;
    let ghost used0 = used@;
    let mut j: usize = 0;
    while j < cols
        invariant
            mv == m@.map_values(|r: Vec<bool>| r@),
            m@.len() == cols,
            k == prefix.len(),
            k < m@.len(),
            rectangular(mv, cols as nat),
            is_partial_assignment(mv, cols as nat, prefix),
            marks_used(used0, prefix, cols as nat),
            assign@ == prefix,
            used@ == used0,
            j <= cols,
            old(assign)@ == prefix,
            forall|c: usize| c < j && !used0[c as int] && mv[k as int][c as int] ==> dead_end(
                mv,
                cols as nat,
                #[trigger] prefix.push(c),
            ),
        decreases cols - j,
    {
        assert(mv[k as int] == m@[k as int]@);
        if !used[j] && m[k][j] {
            used.set(j, true);
            assign.push(j);
            proof {
                let a = assign@;
                assert(a == prefix.push(j));
                assert forall|x: int, y: int| 0 <= x < y < a.len() implies #[trigger] a[x] != #[trigger] a[y] by {
                    if y == k {
                        if a[x] == j {
                            assert(used0[j as int]);
                            assert(false);
                        }
                    }
                }
                assert forall|c: int| 0 <= c < cols implies (#[trigger] used@[c] <==> exists|i: int| 0 <= i < a.len() && a[i] == c) by {
                    if c == j {
                        assert(a[k as int] == c);
                    } else {
                        if used@[c] {
                            assert(used0[c]);
                            let i = choose|i: int| 0 <= i < prefix.len() && prefix[i] == c;
                            assert(a[i] == c);
                        }
                        if exists|i: int| 0 <= i < a.len() && a[i] == c {
                            let i = choose|i: int| 0 <= i < a.len() && a[i] == c;
                            assert(i < k);
                            assert(prefix[i] == c);
                        }
                    }
                }
            }
            if extend(m, cols, assign, used) {
                return true;
            }
            assign.pop();
            used.set(j, false);
            proof {
                assert(assign@ =~= prefix);
                assert(used@ =~= used0);
            }
        }
        j = j + 1;
    }
    proof {
        assert forall|a: Seq<usize>| #[trigger] is_perfect_assignment(mv, cols as nat, a) implies a.take(
            k as int,
        ) != prefix by {
            if a.take(k as int) == prefix {
                let c = a[k as int];
                assert(c < cols);
                assert(mv[k as int][c as int]);
                if used0[c as int] {
                    let i = choose|i: int| 0 <= i < prefix.len() && prefix[i] == c;
                    assert(a[i] == prefix[i]);
                    assert(a[i] != a[k as int]);
                    assert(false);
                }
                assert(dead_end(mv, cols as nat, prefix.push(c)));
                assert(a.take(k + 1) =~= prefix.push(c));
            }
        }
    }
    false
}

/// Decides whether the rows and columns of the compatibility matrix `m` (rows of
/// `cols` entries) can be matched one to one.
pub fn perfect_matching_exists(m: &Vec<Vec<bool>>, cols: usize) -> (found: bool)
    requires
        rectangular(m@.map_values(|r: Vec<bool>| r@), cols as nat),
    ensures
        found == perfectly_matchable(m@.map_values(|r: Vec<bool>| r@), cols as nat),
{
    let ghost mv = m@.map_values(|r: Vec<bool>| r@);
    if m.len() != cols {
        return false;
    }
    let mut assign: Vec<usize> = Vec::new();
    let mut used: Vec<bool> = Vec::new();
    let mut j: usize = 0;
    while j < cols
        invariant
            j <= cols,
            used@.len() == j,
            forall|c: int| 0 <= c < j ==> !#[trigger] used@[c],
        decreases cols - j,
    {
        used.push(false);
        j = j + 1;
    }
    let found = extend(m, cols, &mut assign, &mut used);
    proof {
        if !found {
            if perfectly_matchable(mv, cols as nat) {
                let a = choose|a: Seq<usize>| is_perfect_assignment(mv, cols as nat, a);
                assert(a.take(0) =~= Seq::<usize>::empty());
            }
        }
    }
    found
}

} // verus!
