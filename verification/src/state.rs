//! The per-iterator decision state: whether the sequence has ended, and what
//! each `next` invocation must do about it.
//!
//! This is the piece a host-facing shell drives when the stream itself lives
//! outside the library: the shell asks `should_poll`, performs the one pull
//! it allows, and hands the outcome back to `settle`, which builds the
//! iteration-result record and records exhaustion permanently.

use vstd::prelude::*;
use crate::record::IterationResult;

verus! {

/// The record one settlement must produce: once the end has been observed,
/// every step resolves `done == true` whatever the shell hands back;
/// before that, the step reports the pull outcome itself.
pub open spec fn spec_settle_record<T>(exhausted: bool, event: Option<T>) -> IterationResult<T> {
    if exhausted {
        IterationResult { done: true, value: None }
    } else {
        IterationResult::spec_from_event(event)
    }
}

/// Tracks whether the bridged sequence has reached its end. Exhaustion is
/// terminal: once recorded it is never cleared.
#[derive(PartialEq)]
pub struct IterationState {
    /// True once a pull has observed the end of the stream.
    pub exhausted: bool,
}

impl IterationState {
    /// A fresh state: no pull has observed the end of the stream yet.
    pub fn new() -> (s: Self)
        ensures
            !s.exhausted,
    {
        IterationState { exhausted: false }
    }

    /// Decides whether a `next` invocation may pull the producer: only while
    /// the end has not been observed. Post-exhaustion invocations must not
    /// re-invoke the producer.
    pub fn should_poll(&self) -> (b: bool)
        ensures
            b == !self.exhausted,
    {
        !self.exhausted
    }

    /// Settles one iteration step from the observed pull outcome (`None` both
    /// for an observed end and for a step that made no pull): builds the
    /// record and records exhaustion, which is permanent.
    pub fn settle<T>(&mut self, event: Option<T>) -> (r: IterationResult<T>)
        ensures
            final(self).exhausted == (old(self).exhausted || event is None),
            r == spec_settle_record(old(self).exhausted, event),
            r.wf(),
    {
        if self.exhausted {
            IterationResult::from_event(None)
        } else {
            if event.is_none() {
                self.exhausted = true;
            }
            IterationResult::from_event(event)
        }
    }
}

} // verus!
