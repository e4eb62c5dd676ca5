//! The stream wrapper: owns the native stream and serializes access to it.
//!
//! The stream's polling state is not reentrant-safe, so at most one pull may
//! hold its exclusive borrow at a time. A pull first takes the borrow with
//! `acquire` — which fails loudly, changing nothing, if a prior pull still
//! holds it — and then polls and releases with `poll_locked`.

use vstd::prelude::*;
use crate::stream::{NativeStream, StreamView};

verus! {

/// The failures the bridge itself can produce.
pub enum BridgeError {
    /// A pull tried to take the stream's exclusive borrow while a prior
    /// pull still held it: a usage error that must never silently
    /// interleave two pulls on the stream's internal state.
    BorrowViolation,
}

/// The mathematical state of the wrapper: the wrapped stream, and whether a
/// pull currently holds its exclusive borrow.
#[verifier::ext_equal]
pub ghost struct WrapperView<T> {
    pub stream: StreamView<T>,
    pub locked: bool,
}

/// Owns the native stream and serializes pulls on it.
#[derive(PartialEq)]
pub struct StreamWrapper<T> {
    stream: NativeStream<T>,
    locked: bool,
}

impl<T> View for StreamWrapper<T> {
    type V = WrapperView<T>;

    closed spec fn view(&self) -> WrapperView<T> {
        WrapperView { stream: self.stream@, locked: self.locked }
    }
}

impl<T> StreamWrapper<T> {
    /// Takes ownership of the stream; no pull is in flight yet.
    pub fn new(stream: NativeStream<T>) -> (w: Self)
        ensures
            w@.stream == stream@,
            !w@.locked,
    {
        StreamWrapper { stream, locked: false }
    }

    /// Takes the exclusive borrow for one pull. While a prior pull still
    /// holds it, the attempt fails loudly and leaves every part of the
    /// state exactly as it was.
    pub fn acquire(&mut self) -> (r: Result<(), BridgeError>)
        ensures
            old(self)@.locked ==> r == Err::<(), BridgeError>(BridgeError::BorrowViolation)
                && final(self)@ == old(self)@,
            !old(self)@.locked ==> r == Ok::<(), BridgeError>(())
                && final(self)@ == (WrapperView { stream: old(self)@.stream, locked: true }),
    {
        if self.locked {
            Err(BridgeError::BorrowViolation)
        } else {
            self.locked = true;
            Ok(())
        }
    }

    /// How many times the wrapped producer has been polled.
    pub fn pulls(&self) -> (n: usize)
        ensures
            n == self@.stream.pulls,
    {
        self.stream.pulls()
    }
}

impl<T: Copy> StreamWrapper<T> {
    /// One pull under the borrow taken by `acquire`: polls the stream once
    /// and releases the borrow before returning.
    pub fn poll_locked(&mut self) -> (r: Option<T>)
        requires
            old(self)@.locked,
            old(self)@.stream.pulls < usize::MAX,
        ensures
            !final(self)@.locked,
            final(self)@.stream == old(self)@.stream.spec_poll().0,
            r == old(self)@.stream.spec_poll().1,
    {
        let r = self.stream.poll_next();
        self.locked = false;
        r
    }
}

} // verus!
