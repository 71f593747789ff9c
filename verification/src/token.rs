//! Cancellation tokens: one shared flag per running task.
//!
//! The dispatcher keeps one handle to signal a stop, the worker keeps another
//! to poll it. The flag is only ever raised, never lowered. What a poll returns
//! depends on the other threads, so nothing is promised of it: the tasks take
//! the polled value as an argument and say what they do for either value.

use std::sync::atomic::AtomicBool;
use std::sync::atomic::Ordering;
use std::sync::Arc;
use vstd::prelude::*;

verus! {

/// A flag shared between the party that asks a task to stop and the task.
pub type CancellationToken = Arc<AtomicBool>;

/// A fresh token that nobody has signalled.
pub fn new_token() -> (token: CancellationToken) {
    Arc::new(AtomicBool::new(false))
}

/// Another handle to the same flag.
pub fn share(token: &CancellationToken) -> (other: CancellationToken)
    ensures
        other == *token,
{
    token.clone()
}

/// Asks the task that polls this token to stop.
pub fn signal(token: &CancellationToken) {
    token.store(true, Ordering::Relaxed);
}

/// Whether a stop has been asked for, as far as this thread sees now.
pub fn is_signalled(token: &CancellationToken) -> (raised: bool) {
    token.load(Ordering::Relaxed)
}

} // verus!
