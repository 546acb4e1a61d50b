//! Assertions on `Poll` subjects.

use vstd::prelude::*;
use crate::assert_that::{bumped, AssertThat, Mode, lemma_log_after_each_by_views, nested_failures};
use crate::assertions::option::{explain_variant, variant_failure};
use crate::failure::failures_view;
use crate::render::{Render, render_variant, rendered_variant};
use crate::text::text_of;

verus! {

/// The state of an asynchronous computation: finished with a value, or not yet.
#[derive(Clone, Copy, Debug, PartialEq, Eq)]
pub enum Poll<T> {
    Ready(T),
    Pending,
}

impl<T> Poll<T> {
    /// Whether the computation has finished.
    pub fn is_ready(&self) -> (b: bool)
        ensures
            b == (*self is Ready),
    {
        match self {
            Poll::Ready(_) => true,
            Poll::Pending => false,
        }
    }

    /// Whether the computation has not finished yet.
    pub fn is_pending(&self) -> (b: bool)
        ensures
            b == (*self is Pending),
    {
        match self {
            Poll::Ready(_) => false,
            Poll::Pending => true,
        }
    }

    /// Borrows the value of a finished computation.
    pub fn as_ref(&self) -> (r: Poll<&T>)
        ensures
            (*self is Ready) == (r is Ready),
            *self is Ready ==> *r->0 == self->0,
    {
        match self {
            Poll::Ready(v) => Poll::Ready(v),
            Poll::Pending => Poll::Pending,
        }
    }
}

impl<T: Render> Render for Poll<T> {
    open spec fn rendered(&self) -> Seq<char> {
        match self {
            Poll::Ready(v) => rendered_variant("Ready"@, v.rendered()),
            Poll::Pending => "Pending"@,
        }
    }

    fn render(&self) -> (s: String) {
        match self {
            Poll::Ready(v) => render_variant("Ready", v.render()),
            Poll::Pending => text_of("Pending"),
        }
    }
}

/// Assertions on whether an `Poll` subject is `Ready` or `Pending`; the subject stays in the
/// chain.
pub trait PollAssertions<T>: Sized {
    /// Whether the subject is `Ready`.
    spec fn subject_is_ready(&self) -> bool;

    /// Asserts that the subject is `Ready`.
    fn is_ready(self) -> Self;

    /// Asserts that the subject is `Pending`.
    fn is_pending(self) -> Self
        where
            T: Render,
    ;

    /// Asserts that the subject is `Ready` and that its value passes `assertions`, which get
    /// a capture-mode chain over it; what they record is recorded here.
    fn is_ready_satisfying<A: for<'x> FnOnce(AssertThat<&'x T>) -> AssertThat<&'x T>>(self, assertions: A) -> Self
        requires
            forall|c: AssertThat<&T>| call_requires(assertions, (c,)),
    ;

    /// Fluent name of [`PollAssertions::is_ready_satisfying`].
    fn be_ready_satisfying<A: for<'x> FnOnce(AssertThat<&'x T>) -> AssertThat<&'x T>>(self, assertions: A) -> Self
        requires
            forall|c: AssertThat<&T>| call_requires(assertions, (c,)),
    ;

    /// Fluent name of [`PollAssertions::is_some`].
    fn be_ready(self) -> Self;

    /// Fluent name of [`PollAssertions::is_none`].
    fn be_pending(self) -> Self
        where
            T: Render,
    ;
}

/// Extraction of the value of a `Ready` subject.
pub trait PollExtractAssertions<T>: Sized {
    /// Whether the subject is `Ready`.
    spec fn holds_ready(&self) -> bool;

    /// Continues the chain on the value inside `Ready`; the subject must be `Ready`.
    fn get_ready(self) -> AssertThat<T>
        requires
            self.holds_ready(),
    ;
}

impl<T> PollAssertions<T> for AssertThat<Poll<T>> {
    open spec fn subject_is_ready(&self) -> bool {
        self.subject() is Ready
    }

    fn is_ready(self) -> (r: Self)
        ensures
            self.continues_as(&r, self.subject() is Ready, variant_failure("Pending"@, "Poll::Ready"@)),
    {
        if self.actual().is_ready() {
            self.pass()
        } else {
            let f = explain_variant(text_of("Pending"), "Poll::Ready");
            self.conclude(false, f)
        }
    }

    fn is_pending(self) -> (r: Self)
        where
            T: Render,
        ensures
            self.continues_as(&r, self.subject() is Pending, variant_failure((self.subject()).rendered(), "Poll::Pending"@)),
    {
        if self.actual().is_pending() {
            self.pass()
        } else {
            let found = self.actual().render();
            let f = explain_variant(found, "Poll::Pending");
            self.conclude(false, f)
        }
    }

    fn is_ready_satisfying<A: for<'x> FnOnce(AssertThat<&'x T>) -> AssertThat<&'x T>>(self, assertions: A) -> (r: Self)
        ensures
            self.subject() is Pending ==> self.continues_as(&r, false, variant_failure("Pending"@, "Poll::Ready"@)),
            self.subject() is Ready ==> (exists|c: AssertThat<&T>, out: AssertThat<&T>|
                #![trigger call_ensures(assertions, (c,), out)]
                *c.subject() == (self.subject())->0 && c.mode_of() == Mode::Capture && c.log().len() == 0
                    && call_ensures(assertions, (c,), out) && r.subject() == self.subject()
                    && r.mode_of() == self.mode_of() && r.expression_text() == self.expression_text() && r.location_text() == self.location_text()
                    && r.detail_texts() == self.detail_texts() && r.log() == self.log_after_each(out.log())
                    && r.assertion_count() == bumped(self.assertion_count())),
    {
        let ghost before = self;
        let (opt, this) = self.replace_actual(());
        let fs = match &opt {
            Poll::Ready(v) => Some(nested_failures(v, assertions)),
            Poll::Pending => None,
        };
        let (_, this) = this.replace_actual(opt);
        match fs {
            Some(fs) => {
                proof {
                    lemma_log_after_each_by_views(this, before, failures_view(fs@));
                }
                this.record_all(fs)
            },
            None => {
                let f = explain_variant(text_of("Pending"), "Poll::Ready");
                this.conclude(false, f)
            },
        }
    }

    fn be_ready_satisfying<A: for<'x> FnOnce(AssertThat<&'x T>) -> AssertThat<&'x T>>(self, assertions: A) -> (r: Self)
        ensures
            self.subject() is Pending ==> self.continues_as(&r, false, variant_failure("Pending"@, "Poll::Ready"@)),
            self.subject() is Ready ==> (exists|c: AssertThat<&T>, out: AssertThat<&T>|
                #![trigger call_ensures(assertions, (c,), out)]
                *c.subject() == (self.subject())->0 && c.mode_of() == Mode::Capture && c.log().len() == 0
                    && call_ensures(assertions, (c,), out) && r.subject() == self.subject()
                    && r.mode_of() == self.mode_of() && r.expression_text() == self.expression_text() && r.location_text() == self.location_text()
                    && r.detail_texts() == self.detail_texts() && r.log() == self.log_after_each(out.log())
                    && r.assertion_count() == bumped(self.assertion_count())),
    {
        self.is_ready_satisfying(assertions)
    }

    fn be_ready(self) -> (r: Self)
        ensures
            self.continues_as(&r, self.subject() is Ready, variant_failure("Pending"@, "Poll::Ready"@)),
    {
        self.is_ready()
    }

    fn be_pending(self) -> (r: Self)
        where
            T: Render,
        ensures
            self.continues_as(&r, self.subject() is Pending, variant_failure((self.subject()).rendered(), "Poll::Pending"@)),
    {
        self.is_pending()
    }
}

impl<'a, T> PollAssertions<T> for AssertThat<&'a Poll<T>> {
    open spec fn subject_is_ready(&self) -> bool {
        *self.subject() is Ready
    }

    fn is_ready(self) -> (r: Self)
        ensures
            self.continues_as(&r, *self.subject() is Ready, variant_failure("Pending"@, "Poll::Ready"@)),
    {
        if self.actual().is_ready() {
            self.pass()
        } else {
            let f = explain_variant(text_of("Pending"), "Poll::Ready");
            self.conclude(false, f)
        }
    }

    fn is_pending(self) -> (r: Self)
        where
            T: Render,
        ensures
            self.continues_as(&r, *self.subject() is Pending, variant_failure((*self.subject()).rendered(), "Poll::Pending"@)),
    {
        if self.actual().is_pending() {
            self.pass()
        } else {
            let found = self.actual().render();
            let f = explain_variant(found, "Poll::Pending");
            self.conclude(false, f)
        }
    }

    fn is_ready_satisfying<A: for<'x> FnOnce(AssertThat<&'x T>) -> AssertThat<&'x T>>(self, assertions: A) -> (r: Self)
        ensures
            *self.subject() is Pending ==> self.continues_as(&r, false, variant_failure("Pending"@, "Poll::Ready"@)),
            *self.subject() is Ready ==> (exists|c: AssertThat<&T>, out: AssertThat<&T>|
                #![trigger call_ensures(assertions, (c,), out)]
                *c.subject() == (*self.subject())->0 && c.mode_of() == Mode::Capture && c.log().len() == 0
                    && call_ensures(assertions, (c,), out) && r.subject() == self.subject()
                    && r.mode_of() == self.mode_of() && r.expression_text() == self.expression_text() && r.location_text() == self.location_text()
                    && r.detail_texts() == self.detail_texts() && r.log() == self.log_after_each(out.log())
                    && r.assertion_count() == bumped(self.assertion_count())),
    {
        let opt = *self.actual();
        match opt {
            Poll::Ready(v) => {
                let fs = nested_failures(v, assertions);
                self.record_all(fs)
            },
            Poll::Pending => {
                let f = explain_variant(text_of("Pending"), "Poll::Ready");
                self.conclude(false, f)
            },
        }
    }

    fn be_ready_satisfying<A: for<'x> FnOnce(AssertThat<&'x T>) -> AssertThat<&'x T>>(self, assertions: A) -> (r: Self)
        ensures
            *self.subject() is Pending ==> self.continues_as(&r, false, variant_failure("Pending"@, "Poll::Ready"@)),
            *self.subject() is Ready ==> (exists|c: AssertThat<&T>, out: AssertThat<&T>|
                #![trigger call_ensures(assertions, (c,), out)]
                *c.subject() == (*self.subject())->0 && c.mode_of() == Mode::Capture && c.log().len() == 0
                    && call_ensures(assertions, (c,), out) && r.subject() == self.subject()
                    && r.mode_of() == self.mode_of() && r.expression_text() == self.expression_text() && r.location_text() == self.location_text()
                    && r.detail_texts() == self.detail_texts() && r.log() == self.log_after_each(out.log())
                    && r.assertion_count() == bumped(self.assertion_count())),
    {
        self.is_ready_satisfying(assertions)
    }

    fn be_ready(self) -> (r: Self)
        ensures
            self.continues_as(&r, *self.subject() is Ready, variant_failure("Pending"@, "Poll::Ready"@)),
    {
        self.is_ready()
    }

    fn be_pending(self) -> (r: Self)
        where
            T: Render,
        ensures
            self.continues_as(&r, *self.subject() is Pending, variant_failure((*self.subject()).rendered(), "Poll::Pending"@)),
    {
        self.is_pending()
    }
}

impl<T> PollExtractAssertions<T> for AssertThat<Poll<T>> {
    open spec fn holds_ready(&self) -> bool {
        self.subject() is Ready
    }

    fn get_ready(self) -> (r: AssertThat<T>)
        ensures
            r.subject() == self.subject()->0,
            r.mode_of() == self.mode_of(),
            r.expression_text() == self.expression_text() && r.location_text() == self.location_text(),
            r.detail_texts() == self.detail_texts(),
            r.log() == self.log(),
            r.assertion_count() == bumped(self.assertion_count()),
    {
        let (actual, this) = self.replace_actual(());
        let value = match actual {
            Poll::Ready(v) => v,
            Poll::Pending => vstd::pervasive::unreached(),
        };
        let (_, r) = this.replace_actual(value);
        r.tick()
    }
}

impl<'a, T> PollExtractAssertions<&'a T> for AssertThat<&'a Poll<T>> {
    open spec fn holds_ready(&self) -> bool {
        *self.subject() is Ready
    }

    fn get_ready(self) -> (r: AssertThat<&'a T>)
        ensures
            *r.subject() == self.subject()->0,
            r.mode_of() == self.mode_of(),
            r.expression_text() == self.expression_text() && r.location_text() == self.location_text(),
            r.detail_texts() == self.detail_texts(),
            r.log() == self.log(),
            r.assertion_count() == bumped(self.assertion_count()),
    {
        let (actual, this) = self.replace_actual(());
        let value: &'a T = match actual {
            Poll::Ready(v) => v,
            Poll::Pending => vstd::pervasive::unreached(),
        };
        let (_, r) = this.replace_actual(value);
        r.tick()
    }
}

} // verus!
