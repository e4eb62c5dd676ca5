//! The bridge object: the handle that makes a native stream consumable
//! through the host's asynchronous-iteration protocol.
//!
//! A `next` invocation is modelled in two halves, mirroring the host's
//! promise discipline: `invoke_next` registers the step (the host called
//! `next` and holds an unsettled promise), and `complete_oldest` settles the
//! oldest registered step with one serialized pull. A well-behaved consumer
//! that awaits every call before the following one uses `next`, which is the
//! two halves back to back.

use vstd::prelude::*;
use crate::record::IterationResult;
use crate::state::IterationState;
use crate::stream::{NativeStream, StreamView};
use crate::wrapper::StreamWrapper;

verus! {

/// The mathematical state of the whole bridge: the wrapped stream, the
/// pull borrow, terminal exhaustion, and how many `next` invocations are
/// still unsettled.
#[verifier::ext_equal]
pub ghost struct BridgeView<T> {
    pub stream: StreamView<T>,
    pub locked: bool,
    pub exhausted: bool,
    pub pending: int,
}

impl<T> BridgeView<T> {
    /// A bridge state as the host can observe it between turns: no pull
    /// borrow is outstanding, the cursor is within the source, and
    /// exhaustion is recorded only with the cursor at the end.
    pub open spec fn wf(self) -> bool {
        &&& !self.locked
        &&& self.stream.wf()
        &&& (self.exhausted ==> self.stream.pos == self.stream.items.len())
        &&& 0 <= self.pending
    }

    /// The state of a freshly built bridge over the source `items`.
    pub open spec fn initial(items: Seq<T>) -> BridgeView<T> {
        BridgeView {
            stream: StreamView { items, pos: 0, pulls: 0 },
            locked: false,
            exhausted: false,
            pending: 0,
        }
    }

    /// One `next` invocation: the host now holds one more unsettled promise.
    /// Nothing is pulled yet.
    pub open spec fn spec_invoke(self) -> BridgeView<T> {
        BridgeView {
            stream: self.stream,
            locked: self.locked,
            exhausted: self.exhausted,
            pending: self.pending + 1,
        }
    }

    /// Settling the oldest unsettled invocation. Once exhausted, the
    /// producer is not re-invoked and the step resolves `done == true`;
    /// before that, one serialized pull decides the record, and an observed
    /// end makes exhaustion permanent.
    pub open spec fn spec_complete(self) -> (BridgeView<T>, IterationResult<T>) {
        if self.exhausted {
            (
                BridgeView {
                    stream: self.stream,
                    locked: self.locked,
                    exhausted: true,
                    pending: self.pending - 1,
                },
                IterationResult { done: true, value: None },
            )
        } else {
            let polled = self.stream.spec_poll();
            (
                BridgeView {
                    stream: polled.0,
                    locked: self.locked,
                    exhausted: polled.1 is None,
                    pending: self.pending - 1,
                },
                IterationResult::spec_from_event(polled.1),
            )
        }
    }

    /// One fully awaited `next` call: invoke, then settle it at once.
    pub open spec fn spec_next(self) -> (BridgeView<T>, IterationResult<T>) {
        self.spec_invoke().spec_complete()
    }
}

/// The externally visible handle: owns the stream wrapper and the iteration
/// state for its whole lifetime, so the host-facing operations stay valid
/// exactly as long as the handle lives.
#[derive(PartialEq)]
pub struct AsyncIterator<T> {
    wrapper: StreamWrapper<T>,
    state: IterationState,
    pending: usize,
}

impl<T> View for AsyncIterator<T> {
    type V = BridgeView<T>;

    closed spec fn view(&self) -> BridgeView<T> {
        BridgeView {
            stream: self.wrapper@.stream,
            locked: self.wrapper@.locked,
            exhausted: self.state.exhausted,
            pending: self.pending as int,
        }
    }
}

impl<T> AsyncIterator<T> {
    /// Builds the bridge, taking ownership of the native stream. The new
    /// bridge has pulled nothing, settled nothing, and observed no end.
    pub fn new(stream: NativeStream<T>) -> (b: Self)
        ensures
            b@.stream == stream@,
            !b@.locked,
            !b@.exhausted,
            b@.pending == 0,
    {
        AsyncIterator {
            wrapper: StreamWrapper::new(stream),
            state: IterationState::new(),
            pending: 0,
        }
    }

    /// The iterable-marker operation: answers with the iterator object
    /// itself — always the same object, never a fresh one, so asking again
    /// cannot reset the single-pass sequence's apparent position.
    pub fn iterator_object(&self) -> (it: &Self)
        ensures
            it == self,
    {
        self
    }

    /// Registers one `next` invocation whose settlement is still owed.
    pub fn invoke_next(&mut self)
        requires
            old(self)@.pending < usize::MAX,
        ensures
            final(self)@ == old(self)@.spec_invoke(),
    {
        self.pending = self.pending + 1;
    }

    /// How many times the underlying producer has been polled.
    pub fn pulls(&self) -> (n: usize)
        ensures
            n == self@.stream.pulls,
    {
        self.wrapper.pulls()
    }
}

impl<T: Copy> AsyncIterator<T> {
    /// Settles the oldest unsettled invocation: at most one serialized pull,
    /// and a well-formed iteration-result record. Settlements happen in
    /// invocation order, so pipelined invocations still see the source's
    /// items in their original order.
    pub fn complete_oldest(&mut self) -> (r: IterationResult<T>)
        requires
            old(self)@.pending > 0,
            !old(self)@.locked,
            old(self)@.stream.pulls < usize::MAX,
        ensures
            final(self)@ == old(self)@.spec_complete().0,
            r == old(self)@.spec_complete().1,
            r.wf(),
    {
        self.pending = self.pending - 1;
        if !self.state.should_poll() {
            IterationResult::from_event(None)
        } else {
            match self.wrapper.acquire() {
                Ok(_) => {
                    let event = self.wrapper.poll_locked();
                    self.state.settle(event)
                }
                Err(_) => {
                    // The borrow is free between steps, so a violation is
                    // provably unreachable on this serialized path.
                    assert(false);
                    IterationResult::from_event(None)
                }
            }
        }
    }

    /// One well-behaved `next` call, awaited to completion before the next
    /// one is made: registers the step and settles it at once.
    pub fn next(&mut self) -> (r: IterationResult<T>)
        requires
            old(self)@.wf(),
            old(self)@.pending == 0,
            old(self)@.stream.pulls < usize::MAX,
        ensures
            final(self)@ == old(self)@.spec_next().0,
            r == old(self)@.spec_next().1,
            r.wf(),
            final(self)@.wf(),
    {
        self.invoke_next();
        self.complete_oldest()
    }
}

} // verus!
