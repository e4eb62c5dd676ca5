//! The iteration-result record: the per-step value the host's protocol
//! expects from every `next` call.

use vstd::prelude::*;

verus! {

/// One step's outcome in the host's iteration protocol. `done` tells whether
/// the sequence has ended; `value` carries an item exactly when it has not.
pub struct IterationResult<V> {
    pub done: bool,
    pub value: Option<V>,
}

impl<V> IterationResult<V> {
    /// A record is well formed when it carries a value if and only if
    /// `done` is false: it must never hold both an item and `done == true`.
    pub open spec fn wf(self) -> bool {
        self.done <==> self.value is None
    }

    /// The record that reports one pull of the stream: an item becomes a
    /// `done == false` record carrying it; the end of the stream becomes
    /// `done == true` with no value field.
    pub open spec fn spec_from_event(event: Option<V>) -> IterationResult<V> {
        match event {
            Some(v) => IterationResult { done: false, value: Some(v) },
            None => IterationResult { done: true, value: None },
        }
    }

    /// Builds the iteration-result record for one observed pull outcome.
    pub fn from_event(event: Option<V>) -> (r: Self)
        ensures
            r == Self::spec_from_event(event),
            r.wf(),
    {
        match event {
            Some(v) => IterationResult { done: false, value: Some(v) },
            None => IterationResult { done: true, value: None },
        }
    }
}

} // verus!
