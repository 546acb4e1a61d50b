//! Assertions on the identity of a borrowed subject: whether it is the very instance that
//! another reference points to.

use vstd::prelude::*;
use crate::assert_that::{AssertThat, Expectation};
use crate::failure::{AssertionFailure, FailureKind, FailureView, failure_with};
use crate::text::text_of;

verus! {

/// Trusted: calls `core::ptr::eq`, which tells whether two references hold the same address.
/// Which addresses values get is up to the machine, so only this is stated: references to
/// the same place see the same value.
#[verifier::external_body]
fn same_instance<T: ?Sized>(a: &T, b: &T) -> (same: bool)
    ensures
        same ==> a == b,
{
    core::ptr::eq(a, b)
}

/// Trusted: writes the address a reference points to with `{:p}`. Which address a value has
/// is up to the machine, so nothing is stated of the text.
#[verifier::external_body]
fn address_text<T: ?Sized>(r: &T) -> (s: String) {
    format!("{:p}", r)
}

/// The failure of an identity check without its evidence: the relation that held.
pub open spec fn identity_failure(relation: Seq<char>) -> FailureView {
    failure_with(FailureKind::Identity, None, Some(relation), None, None)
}

/// `f` is the failure of an identity check with the relation `relation`: it shows the address
/// of the subject as the actual operand and the address of the other reference as the
/// expected operand (`expected_side`) or as the unexpected one, and nothing else.
pub open spec fn shows_addresses(f: FailureView, relation: Seq<char>, expected_side: bool) -> bool {
    &&& f.kind == FailureKind::Identity
    &&& f.expression is None
    &&& f.actual is Some
    &&& f.relation == Some(relation)
    &&& if expected_side {
        f.expected is Some && f.unexpected is None
    } else {
        f.expected is None && f.unexpected is Some
    }
    &&& f.facts == Seq::<crate::failure::FactView>::empty()
    &&& f.details == Seq::<Seq<char>>::empty()
}

fn explain_identity<T: ?Sized>(actual: &T, other: &T, relation: &str, expected_side: bool) -> (f: AssertionFailure)
    ensures
        shows_addresses(f@, relation@, expected_side),
{
    let a = address_text(actual);
    let o = address_text(other);
    if expected_side {
        AssertionFailure::assemble(FailureKind::Identity, Some(a), Some(text_of(relation)), Some(o), None)
    } else {
        AssertionFailure::assemble(FailureKind::Identity, Some(a), Some(text_of(relation)), None, Some(o))
    }
}

/// Requires the subject to be the instance `expected` points to.
pub struct IsSameInstanceAs<'e, T: ?Sized>(pub &'e T);

impl<'e, T: ?Sized> IsSameInstanceAs<'e, T> {
    /// Holds the reference to compare with.
    pub fn new(expected: &'e T) -> (m: Self)
        ensures
            m.0 == expected,
    {
        IsSameInstanceAs(expected)
    }
}

impl<'a, 'e, T: ?Sized> Expectation<&'a T> for IsSameInstanceAs<'e, T> {
    open spec fn applicable(&self, actual: &&'a T) -> bool {
        true
    }

    open spec fn admits(&self, actual: &&'a T, ok: bool) -> bool {
        ok ==> *actual == self.0
    }

    open spec fn rejection(&self, actual: &&'a T) -> FailureView {
        identity_failure("is not the same instance as"@)
    }

    open spec fn explains(&self, actual: &&'a T, f: FailureView) -> bool {
        shows_addresses(f, "is not the same instance as"@, true)
    }

    fn evaluate(&self, actual: &&'a T) -> (ok: bool) {
        same_instance(*actual, self.0)
    }

    fn explain(&self, actual: &&'a T) -> (f: AssertionFailure) {
        explain_identity(*actual, self.0, "is not the same instance as", true)
    }
}

/// Requires the subject to be another instance than the one `unexpected` points to.
pub struct IsNotSameInstanceAs<'e, T: ?Sized>(pub &'e T);

impl<'e, T: ?Sized> IsNotSameInstanceAs<'e, T> {
    /// Holds the reference to compare with.
    pub fn new(unexpected: &'e T) -> (m: Self)
        ensures
            m.0 == unexpected,
    {
        IsNotSameInstanceAs(unexpected)
    }
}

impl<'a, 'e, T: ?Sized> Expectation<&'a T> for IsNotSameInstanceAs<'e, T> {
    open spec fn applicable(&self, actual: &&'a T) -> bool {
        true
    }

    open spec fn admits(&self, actual: &&'a T, ok: bool) -> bool {
        !ok ==> *actual == self.0
    }

    open spec fn rejection(&self, actual: &&'a T) -> FailureView {
        identity_failure("is the same instance as"@)
    }

    open spec fn explains(&self, actual: &&'a T, f: FailureView) -> bool {
        shows_addresses(f, "is the same instance as"@, false)
    }

    fn evaluate(&self, actual: &&'a T) -> (ok: bool) {
        !same_instance(*actual, self.0)
    }

    fn explain(&self, actual: &&'a T) -> (f: AssertionFailure) {
        explain_identity(*actual, self.0, "is the same instance as", false)
    }
}

/// Assertions on the identity of a borrowed subject.
pub trait IdentityAssertions<T: ?Sized>: Sized {
    /// Asserts that the subject is the instance `expected` points to.
    fn is_same_instance_as(self, expected: &T) -> Self;

    /// Asserts that the subject is not the instance `unexpected` points to.
    fn is_not_same_instance_as(self, unexpected: &T) -> Self;

    /// Fluent name of [`IdentityAssertions::is_same_instance_as`].
    fn be_same_instance_as(self, expected: &T) -> Self;

    /// Fluent name of [`IdentityAssertions::is_not_same_instance_as`].
    fn not_be_same_instance_as(self, unexpected: &T) -> Self;
}

impl<'a, T: ?Sized> IdentityAssertions<T> for AssertThat<&'a T> {
    fn is_same_instance_as(self, expected: &T) -> (r: Self)
        ensures
            exists|ok: bool, f: FailureView|
                #![trigger self.continues_as(&r, ok, f)]
                (ok ==> self.subject() == expected) && (!ok ==> shows_addresses(f, "is not the same instance as"@, true))
                    && self.continues_as(&r, ok, f),
    {
        self.apply_assertion(&IsSameInstanceAs::new(expected))
    }

    fn is_not_same_instance_as(self, unexpected: &T) -> (r: Self)
        ensures
            exists|ok: bool, f: FailureView|
                #![trigger self.continues_as(&r, ok, f)]
                (!ok ==> self.subject() == unexpected) && (!ok ==> shows_addresses(f, "is the same instance as"@, false))
                    && self.continues_as(&r, ok, f),
    {
        self.apply_assertion(&IsNotSameInstanceAs::new(unexpected))
    }

    fn be_same_instance_as(self, expected: &T) -> (r: Self)
        ensures
            exists|ok: bool, f: FailureView|
                #![trigger self.continues_as(&r, ok, f)]
                (ok ==> self.subject() == expected) && (!ok ==> shows_addresses(f, "is not the same instance as"@, true))
                    && self.continues_as(&r, ok, f),
    {
        self.is_same_instance_as(expected)
    }

    fn not_be_same_instance_as(self, unexpected: &T) -> (r: Self)
        ensures
            exists|ok: bool, f: FailureView|
                #![trigger self.continues_as(&r, ok, f)]
                (!ok ==> self.subject() == unexpected) && (!ok ==> shows_addresses(f, "is the same instance as"@, false))
                    && self.continues_as(&r, ok, f),
    {
        self.is_not_same_instance_as(unexpected)
    }
}

} // verus!
