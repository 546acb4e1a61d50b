//! Assertions on `Result` subjects.

use vstd::prelude::*;
use crate::assert_that::{bumped, AssertThat, Mode, lemma_log_after_each_by_views, nested_failures};
use crate::failure::failures_view;
use crate::assertions::option::{explain_variant, variant_failure};
use crate::render::{Render, render_variant, rendered_variant};

verus! {

/// Assertions on whether a `Result` subject is `Ok` or `Err`; the subject stays in the chain.
pub trait ResultAssertions<T, E>: Sized {
    /// Asserts that the subject is `Ok`.
    fn is_ok(self) -> Self
        where
            E: Render,
    ;

    /// Asserts that the subject is `Err`.
    fn is_err(self) -> Self
        where
            T: Render,
    ;

    /// Asserts that the subject is `Ok` and that its value passes `assertions`, which get a
    /// capture-mode chain over it; what they record is recorded here.
    fn is_ok_satisfying<A: for<'x> FnOnce(AssertThat<&'x T>) -> AssertThat<&'x T>>(self, assertions: A) -> Self
        where
            E: Render,
        requires
            forall|c: AssertThat<&T>| call_requires(assertions, (c,)),
    ;

    /// Asserts that the subject is `Err` and that its error passes `assertions`, which get a
    /// capture-mode chain over it; what they record is recorded here.
    fn is_err_satisfying<A: for<'x> FnOnce(AssertThat<&'x E>) -> AssertThat<&'x E>>(self, assertions: A) -> Self
        where
            T: Render,
        requires
            forall|c: AssertThat<&E>| call_requires(assertions, (c,)),
    ;

    /// Fluent name of [`ResultAssertions::is_ok_satisfying`].
    fn be_ok_satisfying<A: for<'x> FnOnce(AssertThat<&'x T>) -> AssertThat<&'x T>>(self, assertions: A) -> Self
        where
            E: Render,
        requires
            forall|c: AssertThat<&T>| call_requires(assertions, (c,)),
    ;

    /// Fluent name of [`ResultAssertions::is_err_satisfying`].
    fn be_err_satisfying<A: for<'x> FnOnce(AssertThat<&'x E>) -> AssertThat<&'x E>>(self, assertions: A) -> Self
        where
            T: Render,
        requires
            forall|c: AssertThat<&E>| call_requires(assertions, (c,)),
    ;

    /// Fluent name of [`ResultAssertions::is_ok`].
    fn be_ok(self) -> Self
        where
            E: Render,
    ;

    /// Fluent name of [`ResultAssertions::is_err`].
    fn be_err(self) -> Self
        where
            T: Render,
    ;
}

/// Extraction of the value or the error of a `Result` subject.
pub trait ResultExtractAssertions<T, E>: Sized {
    /// Whether the subject is `Ok`.
    spec fn holds_ok(&self) -> bool;

    /// Continues the chain on the value inside `Ok`; the subject must be `Ok`.
    fn get_ok(self) -> AssertThat<T>
        requires
            self.holds_ok(),
    ;

    /// Continues the chain on the error inside `Err`; the subject must be `Err`.
    fn get_err(self) -> AssertThat<E>
        requires
            !self.holds_ok(),
    ;

    /// Continues the chain on the value inside `Ok` when there is one; otherwise hands the
    /// chain back with the failure of [`ResultAssertions::is_ok`] recorded.
    fn try_get_ok(self) -> Result<AssertThat<T>, Self>
        where
            E: Render,
    ;

    /// Continues the chain on the error inside `Err` when there is one; otherwise hands the
    /// chain back with the failure of [`ResultAssertions::is_err`] recorded.
    fn try_get_err(self) -> Result<AssertThat<E>, Self>
        where
            T: Render,
    ;
}

/// How an `Err` subject is shown when `Ok` was wanted.
pub open spec fn err_shown<T, E: Render>(r: Result<T, E>) -> Seq<char> {
    match r {
        Ok(_) => Seq::empty(),
        Err(e) => rendered_variant("Err"@, e.rendered()),
    }
}

/// How an `Ok` subject is shown when `Err` was wanted.
pub open spec fn ok_shown<T: Render, E>(r: Result<T, E>) -> Seq<char> {
    match r {
        Ok(v) => rendered_variant("Ok"@, v.rendered()),
        Err(_) => Seq::empty(),
    }
}

impl<T, E> ResultAssertions<T, E> for AssertThat<Result<T, E>> {
    fn is_ok(self) -> (r: Self)
        where
            E: Render,
        ensures
            self.continues_as(&r, self.subject() is Ok, variant_failure(err_shown(self.subject()), "Result::Ok"@)),
    {
        match self.actual() {
            Ok(_) => self.pass(),
            Err(e) => {
                let f = explain_variant(render_variant("Err", e.render()), "Result::Ok");
                self.conclude(false, f)
            },
        }
    }

    fn is_err(self) -> (r: Self)
        where
            T: Render,
        ensures
            self.continues_as(&r, self.subject() is Err, variant_failure(ok_shown(self.subject()), "Result::Err"@)),
    {
        match self.actual() {
            Err(_) => self.pass(),
            Ok(v) => {
                let f = explain_variant(render_variant("Ok", v.render()), "Result::Err");
                self.conclude(false, f)
            },
        }
    }

    fn is_ok_satisfying<A: for<'x> FnOnce(AssertThat<&'x T>) -> AssertThat<&'x T>>(self, assertions: A) -> (r: Self)
        where
            E: Render,
        ensures
            !(self.subject() is Ok) ==> self.continues_as(&r, false, variant_failure(err_shown(self.subject()), "Result::Ok"@)),
            self.subject() is Ok ==> (exists|c: AssertThat<&T>, out: AssertThat<&T>|
                #![trigger call_ensures(assertions, (c,), out)]
                *c.subject() == (self.subject())->Ok_0 && c.mode_of() == Mode::Capture && c.log().len() == 0
                    && call_ensures(assertions, (c,), out) && r.subject() == self.subject()
                    && r.mode_of() == self.mode_of() && r.expression_text() == self.expression_text() && r.location_text() == self.location_text()
                    && r.detail_texts() == self.detail_texts() && r.log() == self.log_after_each(out.log())
                    && r.assertion_count() == bumped(self.assertion_count())),
    {
        let ghost before = self;
        let (res, this) = self.replace_actual(());
        let outcome = match &res {
            Ok(v) => Ok(nested_failures(v, assertions)),
            Err(o) => Err(render_variant("Err", o.render())),
        };
        let (_, this) = this.replace_actual(res);
        match outcome {
            Ok(fs) => {
                proof {
                    lemma_log_after_each_by_views(this, before, failures_view(fs@));
                }
                this.record_all(fs)
            },
            Err(shown) => {
                let f = explain_variant(shown, "Result::Ok");
                this.conclude(false, f)
            },
        }
    }

    fn be_ok_satisfying<A: for<'x> FnOnce(AssertThat<&'x T>) -> AssertThat<&'x T>>(self, assertions: A) -> (r: Self)
        where
            E: Render,
        ensures
            !(self.subject() is Ok) ==> self.continues_as(&r, false, variant_failure(err_shown(self.subject()), "Result::Ok"@)),
            self.subject() is Ok ==> (exists|c: AssertThat<&T>, out: AssertThat<&T>|
                #![trigger call_ensures(assertions, (c,), out)]
                *c.subject() == (self.subject())->Ok_0 && c.mode_of() == Mode::Capture && c.log().len() == 0
                    && call_ensures(assertions, (c,), out) && r.subject() == self.subject()
                    && r.mode_of() == self.mode_of() && r.expression_text() == self.expression_text() && r.location_text() == self.location_text()
                    && r.detail_texts() == self.detail_texts() && r.log() == self.log_after_each(out.log())
                    && r.assertion_count() == bumped(self.assertion_count())),
    {
        self.is_ok_satisfying(assertions)
    }

    fn is_err_satisfying<A: for<'x> FnOnce(AssertThat<&'x E>) -> AssertThat<&'x E>>(self, assertions: A) -> (r: Self)
        where
            T: Render,
        ensures
            !(self.subject() is Err) ==> self.continues_as(&r, false, variant_failure(ok_shown(self.subject()), "Result::Err"@)),
            self.subject() is Err ==> (exists|c: AssertThat<&E>, out: AssertThat<&E>|
                #![trigger call_ensures(assertions, (c,), out)]
                *c.subject() == (self.subject())->Err_0 && c.mode_of() == Mode::Capture && c.log().len() == 0
                    && call_ensures(assertions, (c,), out) && r.subject() == self.subject()
                    && r.mode_of() == self.mode_of() && r.expression_text() == self.expression_text() && r.location_text() == self.location_text()
                    && r.detail_texts() == self.detail_texts() && r.log() == self.log_after_each(out.log())
                    && r.assertion_count() == bumped(self.assertion_count())),
    {
        let ghost before = self;
        let (res, this) = self.replace_actual(());
        let outcome = match &res {
            Err(v) => Ok(nested_failures(v, assertions)),
            Ok(o) => Err(render_variant("Ok", o.render())),
        };
        let (_, this) = this.replace_actual(res);
        match outcome {
            Ok(fs) => {
                proof {
                    lemma_log_after_each_by_views(this, before, failures_view(fs@));
                }
                this.record_all(fs)
            },
            Err(shown) => {
                let f = explain_variant(shown, "Result::Err");
                this.conclude(false, f)
            },
        }
    }

    fn be_err_satisfying<A: for<'x> FnOnce(AssertThat<&'x E>) -> AssertThat<&'x E>>(self, assertions: A) -> (r: Self)
        where
            T: Render,
        ensures
            !(self.subject() is Err) ==> self.continues_as(&r, false, variant_failure(ok_shown(self.subject()), "Result::Err"@)),
            self.subject() is Err ==> (exists|c: AssertThat<&E>, out: AssertThat<&E>|
                #![trigger call_ensures(assertions, (c,), out)]
                *c.subject() == (self.subject())->Err_0 && c.mode_of() == Mode::Capture && c.log().len() == 0
                    && call_ensures(assertions, (c,), out) && r.subject() == self.subject()
                    && r.mode_of() == self.mode_of() && r.expression_text() == self.expression_text() && r.location_text() == self.location_text()
                    && r.detail_texts() == self.detail_texts() && r.log() == self.log_after_each(out.log())
                    && r.assertion_count() == bumped(self.assertion_count())),
    {
        self.is_err_satisfying(assertions)
    }

    fn be_ok(self) -> (r: Self)
        where
            E: Render,
        ensures
            self.continues_as(&r, self.subject() is Ok, variant_failure(err_shown(self.subject()), "Result::Ok"@)),
    {
        self.is_ok()
    }

    fn be_err(self) -> (r: Self)
        where
            T: Render,
        ensures
            self.continues_as(&r, self.subject() is Err, variant_failure(ok_shown(self.subject()), "Result::Err"@)),
    {
        self.is_err()
    }
}

impl<'a, T, E> ResultAssertions<T, E> for AssertThat<&'a Result<T, E>> {
    fn is_ok(self) -> (r: Self)
        where
            E: Render,
        ensures
            self.continues_as(&r, *self.subject() is Ok, variant_failure(err_shown(*self.subject()), "Result::Ok"@)),
    {
        match *self.actual() {
            Ok(_) => self.pass(),
            Err(e) => {
                let f = explain_variant(render_variant("Err", e.render()), "Result::Ok");
                self.conclude(false, f)
            },
        }
    }

    fn is_err(self) -> (r: Self)
        where
            T: Render,
        ensures
            self.continues_as(&r, *self.subject() is Err, variant_failure(ok_shown(*self.subject()), "Result::Err"@)),
    {
        match *self.actual() {
            Err(_) => self.pass(),
            Ok(v) => {
                let f = explain_variant(render_variant("Ok", v.render()), "Result::Err");
                self.conclude(false, f)
            },
        }
    }

    fn is_ok_satisfying<A: for<'x> FnOnce(AssertThat<&'x T>) -> AssertThat<&'x T>>(self, assertions: A) -> (r: Self)
        where
            E: Render,
        ensures
            !(*self.subject() is Ok) ==> self.continues_as(&r, false, variant_failure(err_shown(*self.subject()), "Result::Ok"@)),
            *self.subject() is Ok ==> (exists|c: AssertThat<&T>, out: AssertThat<&T>|
                #![trigger call_ensures(assertions, (c,), out)]
                *c.subject() == (*self.subject())->Ok_0 && c.mode_of() == Mode::Capture && c.log().len() == 0
                    && call_ensures(assertions, (c,), out) && r.subject() == self.subject()
                    && r.mode_of() == self.mode_of() && r.expression_text() == self.expression_text() && r.location_text() == self.location_text()
                    && r.detail_texts() == self.detail_texts() && r.log() == self.log_after_each(out.log())
                    && r.assertion_count() == bumped(self.assertion_count())),
    {
        let res = *self.actual();
        match res {
            Ok(v) => {
                let fs = nested_failures(v, assertions);
                self.record_all(fs)
            },
            Err(o) => {
                let f = explain_variant(render_variant("Err", o.render()), "Result::Ok");
                self.conclude(false, f)
            },
        }
    }

    fn be_ok_satisfying<A: for<'x> FnOnce(AssertThat<&'x T>) -> AssertThat<&'x T>>(self, assertions: A) -> (r: Self)
        where
            E: Render,
        ensures
            !(*self.subject() is Ok) ==> self.continues_as(&r, false, variant_failure(err_shown(*self.subject()), "Result::Ok"@)),
            *self.subject() is Ok ==> (exists|c: AssertThat<&T>, out: AssertThat<&T>|
                #![trigger call_ensures(assertions, (c,), out)]
                *c.subject() == (*self.subject())->Ok_0 && c.mode_of() == Mode::Capture && c.log().len() == 0
                    && call_ensures(assertions, (c,), out) && r.subject() == self.subject()
                    && r.mode_of() == self.mode_of() && r.expression_text() == self.expression_text() && r.location_text() == self.location_text()
                    && r.detail_texts() == self.detail_texts() && r.log() == self.log_after_each(out.log())
                    && r.assertion_count() == bumped(self.assertion_count())),
    {
        self.is_ok_satisfying(assertions)
    }

    fn is_err_satisfying<A: for<'x> FnOnce(AssertThat<&'x E>) -> AssertThat<&'x E>>(self, assertions: A) -> (r: Self)
        where
            T: Render,
        ensures
            !(*self.subject() is Err) ==> self.continues_as(&r, false, variant_failure(ok_shown(*self.subject()), "Result::Err"@)),
            *self.subject() is Err ==> (exists|c: AssertThat<&E>, out: AssertThat<&E>|
                #![trigger call_ensures(assertions, (c,), out)]
                *c.subject() == (*self.subject())->Err_0 && c.mode_of() == Mode::Capture && c.log().len() == 0
                    && call_ensures(assertions, (c,), out) && r.subject() == self.subject()
                    && r.mode_of() == self.mode_of() && r.expression_text() == self.expression_text() && r.location_text() == self.location_text()
                    && r.detail_texts() == self.detail_texts() && r.log() == self.log_after_each(out.log())
                    && r.assertion_count() == bumped(self.assertion_count())),
    {
        let res = *self.actual();
        match res {
            Err(v) => {
                let fs = nested_failures(v, assertions);
                self.record_all(fs)
            },
            Ok(o) => {
                let f = explain_variant(render_variant("Ok", o.render()), "Result::Err");
                self.conclude(false, f)
            },
        }
    }

    fn be_err_satisfying<A: for<'x> FnOnce(AssertThat<&'x E>) -> AssertThat<&'x E>>(self, assertions: A) -> (r: Self)
        where
            T: Render,
        ensures
            !(*self.subject() is Err) ==> self.continues_as(&r, false, variant_failure(ok_shown(*self.subject()), "Result::Err"@)),
            *self.subject() is Err ==> (exists|c: AssertThat<&E>, out: AssertThat<&E>|
                #![trigger call_ensures(assertions, (c,), out)]
                *c.subject() == (*self.subject())->Err_0 && c.mode_of() == Mode::Capture && c.log().len() == 0
                    && call_ensures(assertions, (c,), out) && r.subject() == self.subject()
                    && r.mode_of() == self.mode_of() && r.expression_text() == self.expression_text() && r.location_text() == self.location_text()
                    && r.detail_texts() == self.detail_texts() && r.log() == self.log_after_each(out.log())
                    && r.assertion_count() == bumped(self.assertion_count())),
    {
        self.is_err_satisfying(assertions)
    }

    fn be_ok(self) -> (r: Self)
        where
            E: Render,
        ensures
            self.continues_as(&r, *self.subject() is Ok, variant_failure(err_shown(*self.subject()), "Result::Ok"@)),
    {
        self.is_ok()
    }

    fn be_err(self) -> (r: Self)
        where
            T: Render,
        ensures
            self.continues_as(&r, *self.subject() is Err, variant_failure(ok_shown(*self.subject()), "Result::Err"@)),
    {
        self.is_err()
    }
}

impl<T, E> ResultExtractAssertions<T, E> for AssertThat<Result<T, E>> {
    open spec fn holds_ok(&self) -> bool {
        self.subject() is Ok
    }

    fn get_ok(self) -> (r: AssertThat<T>)
        ensures
            r.subject() == self.subject()->Ok_0,
            r.mode_of() == self.mode_of(),
            r.expression_text() == self.expression_text() && r.location_text() == self.location_text(),
            r.detail_texts() == self.detail_texts(),
            r.log() == self.log(),
            r.assertion_count() == bumped(self.assertion_count()),
    {
        let (actual, this) = self.replace_actual(());
        let value = match actual {
            Ok(v) => v,
            Err(_) => {
                vstd::pervasive::unreached()
            },
        };
        let (_, r) = this.replace_actual(value);
        r.tick()
    }

    fn get_err(self) -> (r: AssertThat<E>)
        ensures
            r.subject() == self.subject()->Err_0,
            r.mode_of() == self.mode_of(),
            r.expression_text() == self.expression_text() && r.location_text() == self.location_text(),
            r.detail_texts() == self.detail_texts(),
            r.log() == self.log(),
            r.assertion_count() == bumped(self.assertion_count()),
    {
        let (actual, this) = self.replace_actual(());
        let value = match actual {
            Err(e) => e,
            Ok(_) => {
                vstd::pervasive::unreached()
            },
        };
        let (_, r) = this.replace_actual(value);
        r.tick()
    }

    fn try_get_ok(self) -> (r: Result<AssertThat<T>, Self>)
        where
            E: Render,
        ensures
            self.subject() is Ok ==> (r matches Ok(t) && t.subject() == self.subject()->Ok_0
                && t.mode_of() == self.mode_of() && t.expression_text() == self.expression_text() && t.location_text() == self.location_text()
                && t.detail_texts() == self.detail_texts() && t.log() == self.log()
                && t.assertion_count() == bumped(self.assertion_count())),
            self.subject() is Err ==> (r matches Err(back) && self.continues_as(
                &back,
                false,
                variant_failure(err_shown(self.subject()), "Result::Ok"@),
            )),
    {
        if self.actual().is_ok() {
            Ok(self.get_ok())
        } else {
            Err(self.is_ok())
        }
    }

    fn try_get_err(self) -> (r: Result<AssertThat<E>, Self>)
        where
            T: Render,
        ensures
            self.subject() is Err ==> (r matches Ok(t) && t.subject() == self.subject()->Err_0
                && t.mode_of() == self.mode_of() && t.expression_text() == self.expression_text() && t.location_text() == self.location_text()
                && t.detail_texts() == self.detail_texts() && t.log() == self.log()
                && t.assertion_count() == bumped(self.assertion_count())),
            self.subject() is Ok ==> (r matches Err(back) && self.continues_as(
                &back,
                false,
                variant_failure(ok_shown(self.subject()), "Result::Err"@),
            )),
    {
        if self.actual().is_err() {
            Ok(self.get_err())
        } else {
            Err(self.is_err())
        }
    }
}

impl<'a, T, E> ResultExtractAssertions<&'a T, &'a E> for AssertThat<&'a Result<T, E>> {
    open spec fn holds_ok(&self) -> bool {
        *self.subject() is Ok
    }

    fn get_ok(self) -> (r: AssertThat<&'a T>)
        ensures
            *r.subject() == self.subject()->Ok_0,
            r.mode_of() == self.mode_of(),
            r.expression_text() == self.expression_text() && r.location_text() == self.location_text(),
            r.detail_texts() == self.detail_texts(),
            r.log() == self.log(),
            r.assertion_count() == bumped(self.assertion_count()),
    {
        let (actual, this) = self.replace_actual(());
        let value: &'a T = match actual {
            Ok(v) => v,
            Err(_) => vstd::pervasive::unreached(),
        };
        let (_, r) = this.replace_actual(value);
        r.tick()
    }

    fn get_err(self) -> (r: AssertThat<&'a E>)
        ensures
            *r.subject() == self.subject()->Err_0,
            r.mode_of() == self.mode_of(),
            r.expression_text() == self.expression_text() && r.location_text() == self.location_text(),
            r.detail_texts() == self.detail_texts(),
            r.log() == self.log(),
            r.assertion_count() == bumped(self.assertion_count()),
    {
        let (actual, this) = self.replace_actual(());
        let value: &'a E = match actual {
            Err(e) => e,
            Ok(_) => vstd::pervasive::unreached(),
        };
        let (_, r) = this.replace_actual(value);
        r.tick()
    }

    fn try_get_ok(self) -> (r: Result<AssertThat<&'a T>, Self>)
        where
            &'a E: Render,
        ensures
            *self.subject() is Ok ==> (r matches Ok(t) && *t.subject() == self.subject()->Ok_0
                && t.mode_of() == self.mode_of() && t.expression_text() == self.expression_text() && t.location_text() == self.location_text()
                && t.detail_texts() == self.detail_texts() && t.log() == self.log()
                && t.assertion_count() == bumped(self.assertion_count())),
            *self.subject() is Err ==> (r matches Err(back) && self.continues_as(
                &back,
                false,
                variant_failure(rendered_variant("Err"@, (&(self.subject()->Err_0)).rendered()), "Result::Ok"@),
            )),
    {
        let res: &'a Result<T, E> = *self.actual();
        match res {
            Ok(_) => Ok(self.get_ok()),
            Err(e) => {
                let f = explain_variant(render_variant("Err", Render::render(&e)), "Result::Ok");
                Err(self.conclude(false, f))
            },
        }
    }

    fn try_get_err(self) -> (r: Result<AssertThat<&'a E>, Self>)
        where
            &'a T: Render,
        ensures
            *self.subject() is Err ==> (r matches Ok(t) && *t.subject() == self.subject()->Err_0
                && t.mode_of() == self.mode_of() && t.expression_text() == self.expression_text() && t.location_text() == self.location_text()
                && t.detail_texts() == self.detail_texts() && t.log() == self.log()
                && t.assertion_count() == bumped(self.assertion_count())),
            *self.subject() is Ok ==> (r matches Err(back) && self.continues_as(
                &back,
                false,
                variant_failure(rendered_variant("Ok"@, (&(self.subject()->Ok_0)).rendered()), "Result::Err"@),
            )),
    {
        let res: &'a Result<T, E> = *self.actual();
        match res {
            Err(_) => Ok(self.get_err()),
            Ok(v) => {
                let f = explain_variant(render_variant("Ok", Render::render(&v)), "Result::Err");
                Err(self.conclude(false, f))
            },
        }
    }
}

} // verus!
