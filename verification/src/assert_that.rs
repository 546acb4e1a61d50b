//! The assertion chain: a subject, how failures are handled, and the failures recorded so far.

use vstd::prelude::*;
use crate::failure::{AssertionFailure, FailureView, failures_view, texts_view, opt_text};
use crate::text::text_of;

verus! {

/// How an assertion chain handles a failure.
///
/// `Panic`: the first failure decides the chain; assertions after it record nothing more
/// (a caller that panics on failure stops there). `Capture`: every failure is collected.
#[derive(Clone, Copy, Debug, PartialEq, Eq, Structural)]
pub enum Mode {
    Panic,
    Capture,
}

/// An assertion chain over a subject.
pub struct AssertThat<T> {
    actual: T,
    mode: Mode,
    expression: Option<String>,
    location: Option<String>,
    details: Vec<String>,
    failures: Vec<AssertionFailure>,
    checks: usize,
}

/// The count of checks after one more, which stays at `usize::MAX` once it got there.
pub open spec fn bumped(n: usize) -> usize {
    if n < usize::MAX { (n + 1) as usize } else { n }
}

/// A check performed against a subject: its verdict and, when it rejects, its failure.
pub trait Expectation<T: ?Sized> {
    /// Whether `ok` is a verdict this check may reach on `actual`.
    spec fn admits(&self, actual: &T, ok: bool) -> bool;

    /// The failure describing a rejection of `actual`.
    spec fn rejection(&self, actual: &T) -> FailureView;

    /// Whether `f` is a failure this check may record on rejecting `actual`: the rejection
    /// itself, unless the check shows evidence that only the run can tell.
    open spec fn explains(&self, actual: &T, f: FailureView) -> bool {
        f == self.rejection(actual)
    }

    /// Whether the check can be run on `actual`: a check that calls code of the caller's
    /// needs that code to accept `actual`.
    spec fn applicable(&self, actual: &T) -> bool;

    /// Decides whether `actual` satisfies the check.
    fn evaluate(&self, actual: &T) -> (ok: bool)
        requires
            self.applicable(actual),
        ensures
            self.admits(actual, ok),
    ;

    /// Describes the rejection of `actual`.
    fn explain(&self, actual: &T) -> (f: AssertionFailure)
        ensures
            self.explains(actual, f@),
    ;
}

impl<'a, T: ?Sized, E: Expectation<T>> Expectation<T> for &'a E {
    open spec fn applicable(&self, actual: &T) -> bool {
        (**self).applicable(actual)
    }

    open spec fn admits(&self, actual: &T, ok: bool) -> bool {
        (**self).admits(actual, ok)
    }

    open spec fn rejection(&self, actual: &T) -> FailureView {
        (**self).rejection(actual)
    }

    open spec fn explains(&self, actual: &T, f: FailureView) -> bool {
        (**self).explains(actual, f)
    }

    fn evaluate(&self, actual: &T) -> (ok: bool) {
        (**self).evaluate(actual)
    }

    fn explain(&self, actual: &T) -> (f: AssertionFailure) {
        (**self).explain(actual)
    }
}


/// Starts an assertion chain in panic mode.
pub fn assert_that<T>(actual: T) -> (a: AssertThat<T>)
    ensures
        a.subject() == actual,
        a.mode_of() == Mode::Panic,
        a.expression_text() == None::<Seq<char>>,
        a.location_text() == None::<Seq<char>>,
        a.detail_texts() == Seq::<Seq<char>>::empty(),
        a.log() == Seq::<FailureView>::empty(),
        a.assertion_count() == 0,
{
    let a = AssertThat {
        actual,
        mode: Mode::Panic,
        expression: None,
        location: None,
        details: Vec::new(),
        failures: Vec::new(),
        checks: 0,
    };
    assert(a.detail_texts() =~= Seq::<Seq<char>>::empty());
    assert(a.log() =~= Seq::<FailureView>::empty());
    a
}

/// Fluent entry point: `value.must()` starts a panic-mode assertion chain on `value`.
pub trait Must: Sized {
    /// Starts an assertion chain on `self` in panic mode.
    fn must(self) -> (a: AssertThat<Self>)
        ensures
            a.subject() == self,
            a.mode_of() == Mode::Panic,
            a.expression_text() == None::<Seq<char>>,
            a.location_text() == None::<Seq<char>>,
            a.detail_texts() == Seq::<Seq<char>>::empty(),
            a.log() == Seq::<FailureView>::empty(),
            a.assertion_count() == 0,
    ;

    /// Starts an assertion chain that owns `self`, for assertions that consume it.
    fn must_owned(self) -> (a: AssertThat<Self>)
        ensures
            a.subject() == self,
            a.mode_of() == Mode::Panic,
            a.expression_text() == None::<Seq<char>>,
            a.location_text() == None::<Seq<char>>,
            a.detail_texts() == Seq::<Seq<char>>::empty(),
            a.log() == Seq::<FailureView>::empty(),
            a.assertion_count() == 0,
    ;
}

impl<T> Must for T {
    fn must(self) -> (a: AssertThat<T>) {
        assert_that(self)
    }

    fn must_owned(self) -> (a: AssertThat<T>) {
        assert_that(self)
    }
}

impl<T> AssertThat<T> {
    /// The subject under test.
    pub closed spec fn subject(&self) -> T {
        self.actual
    }

    /// How failures are handled.
    pub closed spec fn mode_of(&self) -> Mode {
        self.mode
    }

    /// The subject's source text or name, when given.
    pub closed spec fn expression_text(&self) -> Option<Seq<char>> {
        opt_text(self.expression)
    }

    /// Where the assertions of this chain were written, when given.
    pub closed spec fn location_text(&self) -> Option<Seq<char>> {
        opt_text(self.location)
    }

    /// Context messages attached to this chain.
    pub closed spec fn detail_texts(&self) -> Seq<Seq<char>> {
        texts_view(self.details@)
    }

    /// The failures recorded so far.
    pub closed spec fn log(&self) -> Seq<FailureView> {
        failures_view(self.failures@)
    }

    /// How many checks this chain has made.
    pub closed spec fn assertion_count(&self) -> usize {
        self.checks
    }

    /// `f` completed with this chain's expression and context messages.
    pub open spec fn in_context(&self, f: FailureView) -> FailureView {
        FailureView {
            kind: f.kind,
            location: self.location_text(),
            expression: self.expression_text(),
            actual: f.actual,
            relation: f.relation,
            expected: f.expected,
            unexpected: f.unexpected,
            facts: f.facts,
            details: self.detail_texts(),
        }
    }

    /// The failure log after a check with verdict `ok` whose rejection is `f`: unchanged
    /// when the check passed; otherwise `f` in context is appended in capture mode, and
    /// in panic mode only when it is the chain's first failure.
    pub open spec fn log_after(&self, ok: bool, f: FailureView) -> Seq<FailureView> {
        if ok {
            self.log()
        } else if self.mode_of() == Mode::Capture || self.log().len() == 0 {
            self.log().push(self.in_context(f))
        } else {
            self.log()
        }
    }

    /// `next` is this chain after one more check with verdict `ok` and rejection `f`.
    pub open spec fn continues_as(&self, next: &Self, ok: bool, f: FailureView) -> bool {
        &&& next.subject() == self.subject()
        &&& next.mode_of() == self.mode_of()
        &&& next.expression_text() == self.expression_text() && next.location_text() == self.location_text()
        &&& next.detail_texts() == self.detail_texts()
        &&& next.log() == self.log_after(ok, f)
        &&& next.assertion_count() == bumped(self.assertion_count())
    }

    /// `next` carries this chain on over another subject: same mode, expression and context
    /// messages, and the log after a check with verdict `ok` whose rejection is `f`.
    pub open spec fn ends_as<U>(&self, next: &AssertThat<U>, ok: bool, f: FailureView) -> bool {
        &&& next.mode_of() == self.mode_of()
        &&& next.expression_text() == self.expression_text() && next.location_text() == self.location_text()
        &&& next.detail_texts() == self.detail_texts()
        &&& next.log() == self.log_after(ok, f)
        &&& next.assertion_count() == bumped(self.assertion_count())
    }

    /// The failure log after recording each of `fs` in turn as a failed check.
    pub open spec fn log_after_each(&self, fs: Seq<FailureView>) -> Seq<FailureView>
        decreases fs.len(),
    {
        if fs.len() == 0 {
            self.log()
        } else {
            let before = self.log_after_each(fs.drop_last());
            if self.mode_of() == Mode::Capture || before.len() == 0 {
                before.push(self.in_context(fs.last()))
            } else {
                before
            }
        }
    }

    /// `next` is this chain with only its configuration changed.
    pub open spec fn same_state(&self, next: &Self) -> bool {
        &&& next.subject() == self.subject()
        &&& next.log() == self.log()
        &&& next.assertion_count() == self.assertion_count()
    }

    /// Switches the chain to capture mode.
    pub fn with_capture(self) -> (r: Self)
        ensures
            self.same_state(&r),
            r.mode_of() == Mode::Capture,
            r.expression_text() == self.expression_text() && r.location_text() == self.location_text(),
            r.detail_texts() == self.detail_texts(),
    {
        AssertThat { mode: Mode::Capture, ..self }
    }

    /// Names the subject in failure reports.
    pub fn with_expression(self, expression: &str) -> (r: Self)
        ensures
            self.same_state(&r),
            r.mode_of() == self.mode_of(),
            r.expression_text() == Some(expression@),
            r.location_text() == self.location_text(),
            r.detail_texts() == self.detail_texts(),
    {
        AssertThat { expression: Some(text_of(expression)), ..self }
    }

    /// Tells where the assertions of this chain were written (`file:line:column`); every later
    /// failure reports it.
    pub fn with_location(self, location: &str) -> (r: Self)
        ensures
            self.same_state(&r),
            r.mode_of() == self.mode_of(),
            r.expression_text() == self.expression_text(),
            r.location_text() == Some(location@),
            r.detail_texts() == self.detail_texts(),
    {
        AssertThat { location: Some(text_of(location)), ..self }
    }

    /// Attaches a context message to every later failure of this chain.
    pub fn with_detail_message(self, message: &str) -> (r: Self)
        ensures
            self.same_state(&r),
            r.mode_of() == self.mode_of(),
            r.expression_text() == self.expression_text() && r.location_text() == self.location_text(),
            r.detail_texts() == self.detail_texts().push(message@),
    {
        let mut details = self.details;
        let ghost before = details@;
        details.push(text_of(message));
        assert(texts_view(details@) =~= texts_view(before).push(message@));
        AssertThat { details, ..self }
    }

    /// The subject under test.
    pub fn actual(&self) -> (r: &T)
        ensures
            *r == self.subject(),
    {
        &self.actual
    }

    /// The failure-handling mode.
    pub fn mode(&self) -> (m: Mode)
        ensures
            m == self.mode_of(),
    {
        self.mode
    }

    /// The failures recorded so far.
    pub fn failures(&self) -> (f: &Vec<AssertionFailure>)
        ensures
            failures_view(f@) == self.log(),
    {
        &self.failures
    }

    /// How many checks this chain has made.
    pub fn assertion_count_of(&self) -> (n: usize)
        ensures
            n == self.assertion_count(),
    {
        self.checks
    }

    /// Whether no failure has been recorded.
    pub fn passed(&self) -> (b: bool)
        ensures
            b == (self.log().len() == 0),
    {
        self.failures.len() == 0
    }

    /// Ends the chain, handing out the recorded failures.
    pub fn into_failures(self) -> (f: Vec<AssertionFailure>)
        ensures
            failures_view(f@) == self.log(),
    {
        self.failures
    }

    /// The report text that panic mode shows for the first failure, if there is one.
    pub fn panic_message(&self) -> (m: Option<String>)
        ensures
            self.log().len() == 0 ==> m is None,
            self.log().len() > 0 ==> (m matches Some(t) && t@ == crate::failure::report_text(
                self.log()[0],
            )),
    {
        if self.failures.len() == 0 {
            None
        } else {
            Some(self.failures[0].to_human_readable_text())
        }
    }

    /// Records the outcome of one check: the verdict `ok`, and the failure to record
    /// when it is `false`.
    pub fn conclude(self, ok: bool, failure: AssertionFailure) -> (r: Self)
        ensures
            self.continues_as(&r, ok, failure@),
    {
        let r = self.record(ok, failure);
        r.tick()
    }

    /// Records the failure of one check without counting the check.
    fn record(self, ok: bool, failure: AssertionFailure) -> (r: Self)
        ensures
            r.subject() == self.subject(),
            r.mode_of() == self.mode_of(),
            r.expression_text() == self.expression_text() && r.location_text() == self.location_text(),
            r.detail_texts() == self.detail_texts(),
            r.log() == self.log_after(ok, failure@),
            r.assertion_count() == self.assertion_count(),
    {
        let AssertThat { actual, mode, expression, location, details, mut failures, checks } = self;
        let ghost before = failures@;
        if !ok && (matches!(mode, Mode::Capture) || failures.len() == 0) {
            let mut f = failure;
            f.expression = match &expression {
                Some(e) => Some(text_of(e.as_str())),
                None => None,
            };
            f.location = match &location {
                Some(l) => Some(text_of(l.as_str())),
                None => None,
            };
            let mut copied: Vec<String> = Vec::new();
            let mut i: usize = 0;
            while i < details.len()
                invariant
                    i <= details.len(),
                    texts_view(copied@) == texts_view(details@).take(i as int),
                decreases details.len() - i,
            {
                let ghost prev = copied@;
                copied.push(text_of(details[i].as_str()));
                proof {
                    assert(copied@ =~= prev.push(copied@.last()));
                    assert(texts_view(copied@) =~= texts_view(prev).push(details@[i as int]@));
                    assert(texts_view(details@).take(i + 1) =~= texts_view(details@).take(
                        i as int,
                    ).push(details@[i as int]@));
                }
                i = i + 1;
            }
            assert(texts_view(details@).take(details.len() as int) =~= texts_view(details@));
            f.details = copied;
            failures.push(f);
            assert(failures_view(failures@) =~= failures_view(before).push(failures@.last()@));
        }
        AssertThat { actual, mode, expression, location, details, failures, checks }
    }

    /// Records a passed check.
    pub fn pass(self) -> (r: Self)
        ensures
            r.subject() == self.subject(),
            r.mode_of() == self.mode_of(),
            r.expression_text() == self.expression_text() && r.location_text() == self.location_text(),
            r.detail_texts() == self.detail_texts(),
            r.log() == self.log(),
            r.assertion_count() == bumped(self.assertion_count()),
            forall|f: FailureView| self.continues_as(&r, true, f),
    {
        let r = self.tick();
        assert forall|f: FailureView| self.continues_as(&r, true, f) by {}
        r
    }

    /// Counts one more check, changing nothing else.
    pub fn tick(self) -> (r: Self)
        ensures
            r.subject() == self.subject(),
            r.mode_of() == self.mode_of(),
            r.expression_text() == self.expression_text() && r.location_text() == self.location_text(),
            r.detail_texts() == self.detail_texts(),
            r.log() == self.log(),
            r.assertion_count() == bumped(self.assertion_count()),
    {
        let checks = if self.checks < usize::MAX { self.checks + 1 } else { self.checks };
        AssertThat { checks, ..self }
    }

    /// Hands out the subject and carries the chain on over `actual`, unchanged otherwise.
    pub fn replace_actual<U>(self, actual: U) -> (out: (T, AssertThat<U>))
        ensures
            out.0 == self.subject(),
            out.1.subject() == actual,
            out.1.mode_of() == self.mode_of(),
            out.1.expression_text() == self.expression_text() && out.1.location_text() == self.location_text(),
            out.1.detail_texts() == self.detail_texts(),
            out.1.log() == self.log(),
            out.1.assertion_count() == self.assertion_count(),
    {
        let AssertThat { actual: old_actual, mode, expression, location, details, failures, checks } = self;
        (old_actual, AssertThat { actual, mode, expression, location, details, failures, checks })
    }

    /// Runs `expectation` against the subject and records its outcome; the expectation may
    /// be a reusable one passed by reference.
    pub fn matches<E: Expectation<T>>(self, expectation: E) -> (r: Self)
        requires
            expectation.applicable(&self.subject()),
        ensures
            exists|ok: bool|
                #![trigger expectation.admits(&self.subject(), ok)]
                expectation.admits(&self.subject(), ok) && (ok ==> self.continues_as(
                    &r,
                    true,
                    expectation.rejection(&self.subject()),
                )) && (!ok ==> exists|f: FailureView|
                    #![trigger expectation.explains(&self.subject(), f)]
                    expectation.explains(&self.subject(), f) && self.continues_as(&r, false, f)),
    {
        self.apply_assertion(&expectation)
    }

    /// Records each of `failures`, in order, as a failed check of this chain.
    pub fn record_all(self, failures: Vec<AssertionFailure>) -> (r: Self)
        ensures
            r.subject() == self.subject(),
            r.mode_of() == self.mode_of(),
            r.expression_text() == self.expression_text() && r.location_text() == self.location_text(),
            r.detail_texts() == self.detail_texts(),
            r.log() == self.log_after_each(failures_view(failures@)),
            r.assertion_count() == bumped(self.assertion_count()),
    {
        let ghost start = self;
        let total = failures.len();
        let mut this = self;
        let mut rest = failures;
        let ghost all = failures_view(failures@);
        let mut done: usize = 0;
        while rest.len() > 0
            invariant
                done + rest@.len() == all.len(),
                all.len() == total,
                failures_view(rest@) == all.subrange(done as int, all.len() as int),
                this.subject() == start.subject(),
                this.mode_of() == start.mode_of(),
                this.expression_text() == start.expression_text() && this.location_text() == start.location_text(),
                this.detail_texts() == start.detail_texts(),
                this.log() == start.log_after_each(all.take(done as int)),
                this.assertion_count() == start.assertion_count(),
            decreases rest@.len(),
        {
            let ghost before_rest = failures_view(rest@);
            let f = rest.remove(0);
            proof {
                assert(f@ == before_rest[0]);
                assert(f@ == all[done as int]);
                assert(failures_view(rest@) =~= before_rest.drop_first());
                assert(all.subrange(done + 1, all.len() as int) =~= all.subrange(done as int, all.len() as int).drop_first());
                assert(all.take(done + 1).drop_last() =~= all.take(done as int));
                assert(all.take(done + 1).last() == all[done as int]);
            }
            this = this.record(false, f);
            done = done + 1;
        }
        assert(all.take(done as int) =~= all);
        this.tick()
    }

    /// Runs `expectation` against the subject and records its outcome.
    pub fn apply_assertion<E: Expectation<T>>(self, expectation: &E) -> (r: Self)
        requires
            expectation.applicable(&self.subject()),
        ensures
            exists|ok: bool|
                #![trigger expectation.admits(&self.subject(), ok)]
                expectation.admits(&self.subject(), ok) && (ok ==> self.continues_as(
                    &r,
                    true,
                    expectation.rejection(&self.subject()),
                )) && (!ok ==> exists|f: FailureView|
                    #![trigger expectation.explains(&self.subject(), f)]
                    expectation.explains(&self.subject(), f) && self.continues_as(&r, false, f)),
    {
        let ok = expectation.evaluate(&self.actual);
        if ok {
            let ghost before = self;
            let r = self.pass();
            assert(before.continues_as(&r, true, expectation.rejection(&before.subject())));
            r
        } else {
            let failure = expectation.explain(&self.actual);
            self.conclude(false, failure)
        }
    }
}

/// Runs `assertions` on a fresh capture-mode chain over `value` and hands out the failures
/// that chain recorded.
pub fn nested_failures<U, A: FnOnce(AssertThat<U>) -> AssertThat<U>>(value: U, assertions: A) -> (fs: Vec<AssertionFailure>)
    requires
        forall|c: AssertThat<U>| call_requires(assertions, (c,)),
    ensures
        exists|c: AssertThat<U>, out: AssertThat<U>|
            #![trigger call_ensures(assertions, (c,), out)]
            c.subject() == value && c.mode_of() == Mode::Capture && c.log().len() == 0
                && call_ensures(assertions, (c,), out) && failures_view(fs@) == out.log(),
{
    let c = assert_that(value).with_capture();
    let out = assertions(c);
    out.into_failures()
}

/// Recording failures depends only on the mode, expression, context messages and log of a
/// chain, not on its subject.
pub proof fn lemma_log_after_each_by_views<U, V>(a: AssertThat<U>, b: AssertThat<V>, fs: Seq<FailureView>)
    requires
        a.mode_of() == b.mode_of(),
        a.expression_text() == b.expression_text() && a.location_text() == b.location_text(),
        a.detail_texts() == b.detail_texts(),
        a.log() == b.log(),
    ensures
        a.log_after_each(fs) == b.log_after_each(fs),
    decreases fs.len(),
{
    if fs.len() > 0 {
        lemma_log_after_each_by_views(a, b, fs.drop_last());
    }
}

/// `ok` tells whether `value` passes `assertions`: a fresh capture-mode chain over `value`
/// holds no failure once `assertions` have run on it.
pub open spec fn passes_with<U, A: Fn(AssertThat<U>) -> AssertThat<U>>(assertions: A, value: U, ok: bool) -> bool {
    exists|c: AssertThat<U>, out: AssertThat<U>|
        #![trigger call_ensures(assertions, (c,), out)]
        c.subject() == value && c.mode_of() == Mode::Capture && c.log().len() == 0
            && call_ensures(assertions, (c,), out) && ok == (out.log().len() == 0)
}

/// Runs `assertions` on a fresh capture-mode chain over `value` and tells whether that chain
/// recorded no failure.
pub fn passes<U, A: Fn(AssertThat<U>) -> AssertThat<U>>(value: U, assertions: &A) -> (ok: bool)
    requires
        forall|c: AssertThat<U>| call_requires(*assertions, (c,)),
    ensures
        passes_with(*assertions, value, ok),
{
    let c = assert_that(value).with_capture();
    let ghost c0 = c;
    let out = assertions(c);
    let ok = out.passed();
    assert(call_ensures(*assertions, (c0,), out));
    ok
}

} // verus!
