//! Decisions of the assertions on calling a function: whether the call was to panic, and
//! what is reported when it did not behave so. Running the call and catching its panic
//! happens outside this library; it hands in how the call ended.

use vstd::prelude::*;
use crate::assert_that::AssertThat;
use crate::failure::{AssertionFailure, FailureKind, FailureView, failure_with, with_fact};
use crate::render::{render_str_debug, str_debug_text};
use crate::text::{push_text, text_of};

verus! {

/// How a call ended: it returned, or it panicked, with the panic's message when the panic
/// carried a string.
pub enum Invocation {
    Returned,
    Panicked(Option<String>),
}

/// The failure of a call that was to panic and returned.
pub open spec fn did_not_panic_failure() -> FailureView {
    failure_with(FailureKind::Panic, None, Some("did not panic"@), None, None)
}

/// The failure of a call that was to return and panicked, with the panic's message when it
/// had one.
pub open spec fn panicked_failure(message: Option<Seq<char>>) -> FailureView {
    let f = failure_with(FailureKind::Panic, None, Some("unexpectedly panicked"@), None, None);
    match message {
        Some(m) => with_fact(f, None, "Panic message: "@ + str_debug_text(m)),
        None => f,
    }
}

/// The message of a panic, as a view.
pub open spec fn panic_message_text(outcome: &Invocation) -> Option<Seq<char>> {
    match outcome {
        Invocation::Panicked(Some(m)) => Some(m@),
        _ => None,
    }
}

/// Records the outcome of a call that was to panic: it passes exactly when the call panicked.
pub fn settle_panics<T>(a: AssertThat<T>, outcome: &Invocation) -> (r: AssertThat<T>)
    ensures
        a.continues_as(&r, *outcome is Panicked, did_not_panic_failure()),
{
    match outcome {
        Invocation::Panicked(_) => {
            let ghost before = a;
            let r = a.pass();
            assert(before.continues_as(&r, true, did_not_panic_failure()));
            r
        },
        Invocation::Returned => {
            let f = AssertionFailure::assemble(FailureKind::Panic, None, Some(text_of("did not panic")), None, None);
            a.conclude(false, f)
        },
    }
}

/// Records the outcome of a call that was to return: it passes exactly when the call
/// returned; otherwise the failure carries the panic's message when there was one.
pub fn settle_does_not_panic<T>(a: AssertThat<T>, outcome: &Invocation) -> (r: AssertThat<T>)
    ensures
        a.continues_as(&r, *outcome is Returned, panicked_failure(panic_message_text(outcome))),
{
    match outcome {
        Invocation::Returned => {
            let ghost before = a;
            let r = a.pass();
            assert(before.continues_as(&r, true, panicked_failure(panic_message_text(outcome))));
            r
        },
        Invocation::Panicked(message) => {
            let f = AssertionFailure::assemble(
                FailureKind::Panic,
                None,
                Some(text_of("unexpectedly panicked")),
                None,
                None,
            );
            let f = match message {
                Some(m) => {
                    let mut note = text_of("Panic message: ");
                    push_text(&mut note, render_str_debug(m.as_str()).as_str());
                    f.add_fact(None, note)
                },
                None => f,
            };
            a.conclude(false, f)
        },
    }
}

} // verus!
