//! Assertions on `Option` subjects.

use vstd::prelude::*;
use crate::assert_that::{bumped, AssertThat, Mode, lemma_log_after_each_by_views, nested_failures};
use crate::failure::{AssertionFailure, FailureKind, FailureView, failure_with, failures_view};
use crate::render::Render;
use crate::text::text_of;

verus! {

/// The failure of a check that wanted `wanted` but found the variant rendered as `found`.
pub open spec fn variant_failure(found: Seq<char>, wanted: Seq<char>) -> FailureView {
    failure_with(FailureKind::Variant, Some(found), Some("is not the expected variant"@), Some(wanted), None)
}

/// Explains a variant mismatch.
pub fn explain_variant(found: String, wanted: &str) -> (f: AssertionFailure)
    ensures
        f@ == variant_failure(found@, wanted@),
{
    AssertionFailure::assemble(
        FailureKind::Variant,
        Some(found),
        Some(text_of("is not the expected variant")),
        Some(text_of(wanted)),
        None,
    )
}

/// Assertions on whether an `Option` subject is `Some` or `None`; the subject stays in the
/// chain.
pub trait OptionAssertions<T>: Sized {
    /// Whether the subject is `Some`.
    spec fn subject_is_some(&self) -> bool;

    /// Asserts that the subject is `Some`.
    fn is_some(self) -> Self;

    /// Asserts that the subject is `None`.
    fn is_none(self) -> Self
        where
            T: Render,
    ;

    /// Asserts that the subject is `Some` and that its value passes `assertions`, which get
    /// a capture-mode chain over it; what they record is recorded here.
    fn is_some_satisfying<A: for<'x> FnOnce(AssertThat<&'x T>) -> AssertThat<&'x T>>(self, assertions: A) -> Self
        requires
            forall|c: AssertThat<&T>| call_requires(assertions, (c,)),
    ;

    /// Fluent name of [`OptionAssertions::is_some_satisfying`].
    fn be_some_satisfying<A: for<'x> FnOnce(AssertThat<&'x T>) -> AssertThat<&'x T>>(self, assertions: A) -> Self
        requires
            forall|c: AssertThat<&T>| call_requires(assertions, (c,)),
    ;

    /// Fluent name of [`OptionAssertions::is_some`].
    fn be_some(self) -> Self;

    /// Fluent name of [`OptionAssertions::is_none`].
    fn be_none(self) -> Self
        where
            T: Render,
    ;
}

/// Extraction of the value of a `Some` subject.
pub trait OptionExtractAssertions<T>: Sized {
    /// Whether the subject is `Some`.
    spec fn holds_some(&self) -> bool;

    /// Continues the chain on the value inside `Some`; the subject must be `Some`.
    fn get_some(self) -> AssertThat<T>
        requires
            self.holds_some(),
    ;
}

impl<T> OptionAssertions<T> for AssertThat<Option<T>> {
    open spec fn subject_is_some(&self) -> bool {
        self.subject() is Some
    }

    fn is_some(self) -> (r: Self)
        ensures
            self.continues_as(&r, self.subject() is Some, variant_failure("None"@, "Option::Some"@)),
    {
        if self.actual().is_some() {
            self.pass()
        } else {
            let f = explain_variant(text_of("None"), "Option::Some");
            self.conclude(false, f)
        }
    }

    fn is_none(self) -> (r: Self)
        where
            T: Render,
        ensures
            self.continues_as(&r, self.subject() is None, variant_failure((self.subject()).rendered(), "Option::None"@)),
    {
        if self.actual().is_none() {
            self.pass()
        } else {
            let found = self.actual().render();
            let f = explain_variant(found, "Option::None");
            self.conclude(false, f)
        }
    }

    fn is_some_satisfying<A: for<'x> FnOnce(AssertThat<&'x T>) -> AssertThat<&'x T>>(self, assertions: A) -> (r: Self)
        ensures
            self.subject() is None ==> self.continues_as(&r, false, variant_failure("None"@, "Option::Some"@)),
            self.subject() is Some ==> (exists|c: AssertThat<&T>, out: AssertThat<&T>|
                #![trigger call_ensures(assertions, (c,), out)]
                *c.subject() == (self.subject())->0 && c.mode_of() == Mode::Capture && c.log().len() == 0
                    && call_ensures(assertions, (c,), out) && r.subject() == self.subject()
                    && r.mode_of() == self.mode_of() && r.expression_text() == self.expression_text() && r.location_text() == self.location_text()
                    && r.detail_texts() == self.detail_texts() && r.log() == self.log_after_each(out.log())
                    && r.assertion_count() == bumped(self.assertion_count())),
    {
        let ghost before = self;
        let (opt, this) = self.replace_actual(());
        let fs = match &opt {
            Some(v) => Some(nested_failures(v, assertions)),
            None => None,
        };
        let (_, this) = this.replace_actual(opt);
        match fs {
            Some(fs) => {
                proof {
                    lemma_log_after_each_by_views(this, before, failures_view(fs@));
                }
                this.record_all(fs)
            },
            None => {
                let f = explain_variant(text_of("None"), "Option::Some");
                this.conclude(false, f)
            },
        }
    }

    fn be_some_satisfying<A: for<'x> FnOnce(AssertThat<&'x T>) -> AssertThat<&'x T>>(self, assertions: A) -> (r: Self)
        ensures
            self.subject() is None ==> self.continues_as(&r, false, variant_failure("None"@, "Option::Some"@)),
            self.subject() is Some ==> (exists|c: AssertThat<&T>, out: AssertThat<&T>|
                #![trigger call_ensures(assertions, (c,), out)]
                *c.subject() == (self.subject())->0 && c.mode_of() == Mode::Capture && c.log().len() == 0
                    && call_ensures(assertions, (c,), out) && r.subject() == self.subject()
                    && r.mode_of() == self.mode_of() && r.expression_text() == self.expression_text() && r.location_text() == self.location_text()
                    && r.detail_texts() == self.detail_texts() && r.log() == self.log_after_each(out.log())
                    && r.assertion_count() == bumped(self.assertion_count())),
    {
        self.is_some_satisfying(assertions)
    }

    fn be_some(self) -> (r: Self)
        ensures
            self.continues_as(&r, self.subject() is Some, variant_failure("None"@, "Option::Some"@)),
    {
        self.is_some()
    }

    fn be_none(self) -> (r: Self)
        where
            T: Render,
        ensures
            self.continues_as(&r, self.subject() is None, variant_failure((self.subject()).rendered(), "Option::None"@)),
    {
        self.is_none()
    }
}

impl<'a, T> OptionAssertions<T> for AssertThat<&'a Option<T>> {
    open spec fn subject_is_some(&self) -> bool {
        *self.subject() is Some
    }

    fn is_some(self) -> (r: Self)
        ensures
            self.continues_as(&r, *self.subject() is Some, variant_failure("None"@, "Option::Some"@)),
    {
        if self.actual().is_some() {
            self.pass()
        } else {
            let f = explain_variant(text_of("None"), "Option::Some");
            self.conclude(false, f)
        }
    }

    fn is_none(self) -> (r: Self)
        where
            T: Render,
        ensures
            self.continues_as(&r, *self.subject() is None, variant_failure((*self.subject()).rendered(), "Option::None"@)),
    {
        if self.actual().is_none() {
            self.pass()
        } else {
            let found = self.actual().render();
            let f = explain_variant(found, "Option::None");
            self.conclude(false, f)
        }
    }

    fn is_some_satisfying<A: for<'x> FnOnce(AssertThat<&'x T>) -> AssertThat<&'x T>>(self, assertions: A) -> (r: Self)
        ensures
            *self.subject() is None ==> self.continues_as(&r, false, variant_failure("None"@, "Option::Some"@)),
            *self.subject() is Some ==> (exists|c: AssertThat<&T>, out: AssertThat<&T>|
                #![trigger call_ensures(assertions, (c,), out)]
                *c.subject() == (*self.subject())->0 && c.mode_of() == Mode::Capture && c.log().len() == 0
                    && call_ensures(assertions, (c,), out) && r.subject() == self.subject()
                    && r.mode_of() == self.mode_of() && r.expression_text() == self.expression_text() && r.location_text() == self.location_text()
                    && r.detail_texts() == self.detail_texts() && r.log() == self.log_after_each(out.log())
                    && r.assertion_count() == bumped(self.assertion_count())),
    {
        let opt = *self.actual();
        match opt {
            Some(v) => {
                let fs = nested_failures(v, assertions);
                self.record_all(fs)
            },
            None => {
                let f = explain_variant(text_of("None"), "Option::Some");
                self.conclude(false, f)
            },
        }
    }

    fn be_some_satisfying<A: for<'x> FnOnce(AssertThat<&'x T>) -> AssertThat<&'x T>>(self, assertions: A) -> (r: Self)
        ensures
            *self.subject() is None ==> self.continues_as(&r, false, variant_failure("None"@, "Option::Some"@)),
            *self.subject() is Some ==> (exists|c: AssertThat<&T>, out: AssertThat<&T>|
                #![trigger call_ensures(assertions, (c,), out)]
                *c.subject() == (*self.subject())->0 && c.mode_of() == Mode::Capture && c.log().len() == 0
                    && call_ensures(assertions, (c,), out) && r.subject() == self.subject()
                    && r.mode_of() == self.mode_of() && r.expression_text() == self.expression_text() && r.location_text() == self.location_text()
                    && r.detail_texts() == self.detail_texts() && r.log() == self.log_after_each(out.log())
                    && r.assertion_count() == bumped(self.assertion_count())),
    {
        self.is_some_satisfying(assertions)
    }

    fn be_some(self) -> (r: Self)
        ensures
            self.continues_as(&r, *self.subject() is Some, variant_failure("None"@, "Option::Some"@)),
    {
        self.is_some()
    }

    fn be_none(self) -> (r: Self)
        where
            T: Render,
        ensures
            self.continues_as(&r, *self.subject() is None, variant_failure((*self.subject()).rendered(), "Option::None"@)),
    {
        self.is_none()
    }
}

impl<T> OptionExtractAssertions<T> for AssertThat<Option<T>> {
    open spec fn holds_some(&self) -> bool {
        self.subject() is Some
    }

    fn get_some(self) -> (r: AssertThat<T>)
        ensures
            r.subject() == self.subject()->0,
            r.mode_of() == self.mode_of(),
            r.expression_text() == self.expression_text() && r.location_text() == self.location_text(),
            r.detail_texts() == self.detail_texts(),
            r.log() == self.log(),
            r.assertion_count() == bumped(self.assertion_count()),
    {
        let (actual, this) = self.replace_actual(());
        let value = actual.unwrap();
        let (_, r) = this.replace_actual(value);
        r.tick()
    }
}

impl<'a, T> OptionExtractAssertions<&'a T> for AssertThat<&'a Option<T>> {
    open spec fn holds_some(&self) -> bool {
        *self.subject() is Some
    }

    fn get_some(self) -> (r: AssertThat<&'a T>)
        ensures
            *r.subject() == self.subject()->0,
            r.mode_of() == self.mode_of(),
            r.expression_text() == self.expression_text() && r.location_text() == self.location_text(),
            r.detail_texts() == self.detail_texts(),
            r.log() == self.log(),
            r.assertion_count() == bumped(self.assertion_count()),
    {
        let (actual, this) = self.replace_actual(());
        let value: &'a T = actual.as_ref().unwrap();
        let (_, r) = this.replace_actual(value);
        r.tick()
    }
}

} // verus!
