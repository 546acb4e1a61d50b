//! Assertions on the borrow state of a `RefCell`.
//!
//! Whether a cell can be borrowed is decided at run time by the cell itself, so the contracts
//! here state what holds for every state the cell may be in: which failure is recorded when a
//! check rejects, and that nothing else changes.

use vstd::prelude::*;
use core::cell::RefCell;
use crate::assert_that::AssertThat;
use crate::failure::{AssertionFailure, FailureKind, FailureView, failure_with};
use crate::render::{Render, indent_text, indented};
use crate::text::{push_text, text_of};

verus! {

/// `RefCell`, declared so that it can stand in signatures; its contents are opaque here.
#[verifier::external_type_specification]
#[verifier::external_body]
#[verifier::reject_recursive_types(T)]
pub struct ExRefCell<T: ?Sized>(RefCell<T>);

/// Trusted: calls `RefCell::try_borrow` and, when a shared borrow was granted, hands the
/// borrowed value to `f` and returns what `f` gave back. Whether the borrow is granted depends on
/// the borrows alive at the time of the call, so that is not stated; what is stated is that a
/// value handed back is what `f` gave for some value of the cell's type (the cell's contents
/// are opaque here).
#[verifier::external_body]
fn with_shared_borrow<T, R, F: FnOnce(&T) -> R>(cell: &RefCell<T>, f: F) -> (seen: Option<R>)
    requires
        forall|v: &T| call_requires(f, (v,)),
    ensures
        seen matches Some(out) ==> exists|v: &T| call_ensures(f, (v,), out),
{
    match cell.try_borrow() {
        Ok(guard) => Some(f(&*guard)),
        Err(_) => None,
    }
}

/// Trusted: calls `RefCell::try_borrow_mut` and, when an exclusive borrow was granted, hands the
/// borrowed value to `f` and returns what `f` gave back. Whether the borrow is granted depends on
/// the borrows alive at the time of the call, so that is not stated; what is stated is that a
/// value handed back is what `f` gave for some value of the cell's type (the cell's contents
/// are opaque here).
#[verifier::external_body]
fn with_exclusive_borrow<T, R, F: FnOnce(&T) -> R>(cell: &RefCell<T>, f: F) -> (seen: Option<R>)
    requires
        forall|v: &T| call_requires(f, (v,)),
    ensures
        seen matches Some(out) ==> exists|v: &T| call_ensures(f, (v,), out),
{
    match cell.try_borrow_mut() {
        Ok(guard) => Some(f(&*guard)),
        Err(_) => None,
    }
}

/// How a cell is written in a report, given the rendering of its value (or `<borrowed>` when
/// the value could not be read).
pub open spec fn rendered_cell(inner: Seq<char>) -> Seq<char> {
    "RefCell {\n"@ + indented("value: "@ + inner) + ",\n}"@
}

/// The failure of a borrow check: the cell as it was seen, and the state it was not in.
pub open spec fn cell_failure(inner: Seq<char>, relation: Seq<char>) -> FailureView {
    failure_with(FailureKind::Other, Some(rendered_cell(inner)), Some(relation), None, None)
}

/// Explains a rejected borrow check.
pub fn explain_cell(inner: &str, relation: &str) -> (f: AssertionFailure)
    ensures
        f@ == cell_failure(inner@, relation@),
{
    let mut field = text_of("value: ");
    push_text(&mut field, inner);
    let field = indent_text(field.as_str());
    let mut shown = text_of("RefCell {\n");
    push_text(&mut shown, field.as_str());
    push_text(&mut shown, ",\n}");
    AssertionFailure::assemble(FailureKind::Other, Some(shown), Some(text_of(relation)), None, None)
}

fn rendering<T: Render>(v: &T) -> (s: String)
    ensures
        s@ == v.rendered(),
{
    v.render()
}

fn nothing<T>(v: &T) {
}

/// Observes whether a cell is borrowed: it is not when an exclusive borrow can be taken.
pub struct IsBorrowed;

impl IsBorrowed {
    /// `None` when the cell is borrowed; otherwise the rendering of its value, read under the
    /// exclusive borrow that could be taken.
    pub fn observe<T: Render>(&self, cell: &RefCell<T>) -> (seen: Option<String>)
        ensures
            seen matches Some(text) ==> exists|x: T| text@ == #[trigger] x.rendered(),
    {
        let seen = with_exclusive_borrow(cell, rendering);
        proof {
            if let Some(text) = &seen {
                let v = choose|v: &T| call_ensures(rendering, (v,), *text);
                assert(text@ == (*v).rendered());
            }
        }
        seen
    }
}

/// Observes whether a cell is mutably borrowed: it is not when a shared borrow can be taken.
pub struct IsMutablyBorrowed;

impl IsMutablyBorrowed {
    /// `None` when the cell is mutably borrowed; otherwise the rendering of its value, read
    /// under the shared borrow that could be taken.
    pub fn observe<T: Render>(&self, cell: &RefCell<T>) -> (seen: Option<String>)
        ensures
            seen matches Some(text) ==> exists|x: T| text@ == #[trigger] x.rendered(),
    {
        let seen = with_shared_borrow(cell, rendering);
        proof {
            if let Some(text) = &seen {
                let v = choose|v: &T| call_ensures(rendering, (v,), *text);
                assert(text@ == (*v).rendered());
            }
        }
        seen
    }
}

/// Observes whether a cell is free of mutable borrows: a shared borrow can be taken.
pub struct IsNotMutablyBorrowed;

impl IsNotMutablyBorrowed {
    /// Whether a shared borrow of the cell can be taken.
    pub fn observe<T>(&self, cell: &RefCell<T>) -> (free: bool) {
        with_shared_borrow(cell, nothing).is_some()
    }
}

/// Records the outcome of a borrow check: it passes when nothing was seen; otherwise the
/// failure shows the cell with the value that was seen.
pub fn settle_observation<S>(a: AssertThat<S>, seen: Option<String>, relation: &str) -> (r: AssertThat<S>)
    ensures
        match seen {
            None => a.continues_as(&r, true, cell_failure(Seq::empty(), relation@)),
            Some(v) => a.continues_as(&r, false, cell_failure(v@, relation@)),
        },
{
    match seen {
        None => {
            let ghost before = a;
            let r = a.pass();
            assert(before.continues_as(&r, true, cell_failure(Seq::empty(), relation@)));
            r
        },
        Some(v) => {
            let f = explain_cell(v.as_str(), relation);
            a.conclude(false, f)
        },
    }
}

/// Assertions on the dynamic borrow state of a `RefCell`.
pub trait RefCellAssertions<T>: Sized {
    /// Asserts that the cell has an active shared or mutable borrow.
    fn is_borrowed(self) -> Self
        where
            T: Render,
    ;

    /// Asserts that the cell has an active mutable borrow.
    fn is_mutably_borrowed(self) -> Self
        where
            T: Render,
    ;

    /// Asserts that the cell has no active mutable borrow; shared borrows are allowed.
    fn is_not_mutably_borrowed(self) -> Self;

    /// Fluent name of [`RefCellAssertions::is_borrowed`].
    fn be_borrowed(self) -> Self
        where
            T: Render,
    ;

    /// Fluent name of [`RefCellAssertions::is_mutably_borrowed`].
    fn be_mutably_borrowed(self) -> Self
        where
            T: Render,
    ;

    /// Fluent name of [`RefCellAssertions::is_not_mutably_borrowed`].
    fn not_be_mutably_borrowed(self) -> Self;
}

impl<T> RefCellAssertions<T> for AssertThat<RefCell<T>> {
    fn is_borrowed(self) -> (r: Self)
        where
            T: Render,
        ensures
            self.continues_as(&r, true, cell_failure(Seq::empty(), "is not borrowed"@))
                || exists|x: T| self.continues_as(&r, false, #[trigger] cell_failure(x.rendered(), "is not borrowed"@)),
    {
        let seen = IsBorrowed.observe(self.actual());
        settle_observation(self, seen, "is not borrowed")
    }

    fn is_mutably_borrowed(self) -> (r: Self)
        where
            T: Render,
        ensures
            self.continues_as(&r, true, cell_failure(Seq::empty(), "is not mutably borrowed"@))
                || exists|x: T| self.continues_as(&r, false, #[trigger] cell_failure(x.rendered(), "is not mutably borrowed"@)),
    {
        let seen = IsMutablyBorrowed.observe(self.actual());
        settle_observation(self, seen, "is not mutably borrowed")
    }

    fn is_not_mutably_borrowed(self) -> (r: Self)
        ensures
            exists|ok: bool| self.continues_as(&r, ok, cell_failure("<borrowed>"@, "is unexpectedly mutably borrowed"@)),
    {
        let free = IsNotMutablyBorrowed.observe(self.actual());
        if free {
            let ghost before = self;
            let r = self.pass();
            assert(before.continues_as(&r, true, cell_failure("<borrowed>"@, "is unexpectedly mutably borrowed"@)));
            r
        } else {
            let f = explain_cell("<borrowed>", "is unexpectedly mutably borrowed");
            self.conclude(false, f)
        }
    }

    fn be_borrowed(self) -> (r: Self)
        where
            T: Render,
        ensures
            self.continues_as(&r, true, cell_failure(Seq::empty(), "is not borrowed"@))
                || exists|x: T| self.continues_as(&r, false, #[trigger] cell_failure(x.rendered(), "is not borrowed"@)),
    {
        self.is_borrowed()
    }

    fn be_mutably_borrowed(self) -> (r: Self)
        where
            T: Render,
        ensures
            self.continues_as(&r, true, cell_failure(Seq::empty(), "is not mutably borrowed"@))
                || exists|x: T| self.continues_as(&r, false, #[trigger] cell_failure(x.rendered(), "is not mutably borrowed"@)),
    {
        self.is_mutably_borrowed()
    }

    fn not_be_mutably_borrowed(self) -> (r: Self)
        ensures
            exists|ok: bool| self.continues_as(&r, ok, cell_failure("<borrowed>"@, "is unexpectedly mutably borrowed"@)),
    {
        self.is_not_mutably_borrowed()
    }
}

impl<'a, T> RefCellAssertions<T> for AssertThat<&'a RefCell<T>> {
    fn is_borrowed(self) -> (r: Self)
        where
            T: Render,
        ensures
            self.continues_as(&r, true, cell_failure(Seq::empty(), "is not borrowed"@))
                || exists|x: T| self.continues_as(&r, false, #[trigger] cell_failure(x.rendered(), "is not borrowed"@)),
    {
        let seen = IsBorrowed.observe(*self.actual());
        settle_observation(self, seen, "is not borrowed")
    }

    fn is_mutably_borrowed(self) -> (r: Self)
        where
            T: Render,
        ensures
            self.continues_as(&r, true, cell_failure(Seq::empty(), "is not mutably borrowed"@))
                || exists|x: T| self.continues_as(&r, false, #[trigger] cell_failure(x.rendered(), "is not mutably borrowed"@)),
    {
        let seen = IsMutablyBorrowed.observe(*self.actual());
        settle_observation(self, seen, "is not mutably borrowed")
    }

    fn is_not_mutably_borrowed(self) -> (r: Self)
        ensures
            exists|ok: bool| self.continues_as(&r, ok, cell_failure("<borrowed>"@, "is unexpectedly mutably borrowed"@)),
    {
        let free = IsNotMutablyBorrowed.observe(*self.actual());
        if free {
            let ghost before = self;
            let r = self.pass();
            assert(before.continues_as(&r, true, cell_failure("<borrowed>"@, "is unexpectedly mutably borrowed"@)));
            r
        } else {
            let f = explain_cell("<borrowed>", "is unexpectedly mutably borrowed");
            self.conclude(false, f)
        }
    }

    fn be_borrowed(self) -> (r: Self)
        where
            T: Render,
        ensures
            self.continues_as(&r, true, cell_failure(Seq::empty(), "is not borrowed"@))
                || exists|x: T| self.continues_as(&r, false, #[trigger] cell_failure(x.rendered(), "is not borrowed"@)),
    {
        self.is_borrowed()
    }

    fn be_mutably_borrowed(self) -> (r: Self)
        where
            T: Render,
        ensures
            self.continues_as(&r, true, cell_failure(Seq::empty(), "is not mutably borrowed"@))
                || exists|x: T| self.continues_as(&r, false, #[trigger] cell_failure(x.rendered(), "is not mutably borrowed"@)),
    {
        self.is_mutably_borrowed()
    }

    fn not_be_mutably_borrowed(self) -> (r: Self)
        ensures
            exists|ok: bool| self.continues_as(&r, ok, cell_failure("<borrowed>"@, "is unexpectedly mutably borrowed"@)),
    {
        self.is_not_mutably_borrowed()
    }
}

} // verus!
