//! Backend-independent conformance scenarios.
//!
//! Any implementation that can produce connected pairs can be run through
//! the same scenarios, whichever backend it is built on. Each scenario
//! reports whether the count it observed is the one the notify/wait
//! contract owes it; a runner asserts on the outcome.

use vstd::prelude::*;
use crate::error::Error;
use crate::signal::Notify;
use crate::signal::Wait;

verus! {

/// A factory of connected pairs: the surface the conformance scenarios
/// exercise. Implementations hand out a fresh notifier/waiter pair whose
/// halves are usable independently.
pub trait Pair {
    /// The signaling half this factory produces.
    type Notify: Notify;

    /// The consuming half this factory produces.
    type Wait: Wait;

    /// A fresh connected pair.
    fn pair(&self) -> (Self::Notify, Self::Wait);
}

/// Whether a wait's outcome is a success carrying exactly the count a
/// scenario expects. Every scenario accepts an observed count through this
/// judgment and nothing else.
pub fn count_is(outcome: &Result<usize, Error>, want: usize) -> (b: bool)
    ensures
        b == (outcome matches Ok(c) && c == want),
{
    match outcome {
        Ok(c) => *c == want,
        Err(_) => false,
    }
}

/// Run every in-thread conformance scenario against `p`: true exactly when
/// each observed the count it expects.
pub fn all_tests<P: Pair>(p: P) -> (r: bool) {
    let one = test_notify_wait_one(&p);
    let two = test_notify_wait_two(&p);
    one && two
}

/// Scenario: on a fresh pair, one signal followed by one wait must be
/// observed as a count of exactly 1.
pub fn test_notify_wait_one<P: Pair>(p: &P) -> (r: bool) {
    let (notify, wait) = p.pair();

    if notify.notify().is_err() {
        return false;
    }

    let outcome = wait.wait();
    count_is(&outcome, 1)
}

/// Scenario: on a fresh pair, two signals followed by one wait must be
/// observed as an accumulated count of exactly 2. This holds of the kernel
/// counting backend always and of the pipe backend whenever its read-buffer
/// length is at least 2, the default included.
pub fn test_notify_wait_two<P: Pair>(p: &P) -> (r: bool) {
    let (notify, wait) = p.pair();

    if notify.notify().is_err() {
        return false;
    }
    if notify.notify().is_err() {
        return false;
    }

    let outcome = wait.wait();
    count_is(&outcome, 2)
}

} // verus!
