//! The model of the native stream: a finite, pull-based, single-pass
//! producer. Each poll either delivers the item under the cursor and
//! advances it irreversibly, or reports the end. There is no rewind.

use vstd::prelude::*;

verus! {

/// The mathematical state of a native stream: the items it will produce,
/// the cursor (how many have been produced), and how many times the
/// producer has been polled in all.
#[verifier::ext_equal]
pub ghost struct StreamView<T> {
    pub items: Seq<T>,
    pub pos: int,
    pub pulls: int,
}

impl<T> StreamView<T> {
    /// The cursor never passes the end of the source.
    pub open spec fn wf(self) -> bool {
        0 <= self.pos <= self.items.len()
    }

    /// One poll of the producer: under the end, it delivers the item at the
    /// cursor and advances; at the end, it reports `None` and the cursor
    /// stays. Either way the poll itself is counted.
    pub open spec fn spec_poll(self) -> (StreamView<T>, Option<T>) {
        if self.pos < self.items.len() {
            (
                StreamView { items: self.items, pos: self.pos + 1, pulls: self.pulls + 1 },
                Some(self.items[self.pos]),
            )
        } else {
            (
                StreamView { items: self.items, pos: self.pos, pulls: self.pulls + 1 },
                None,
            )
        }
    }
}

/// A finite native stream, owned by whoever will wrap it into the bridge.
#[derive(PartialEq)]
pub struct NativeStream<T> {
    items: Vec<T>,
    pos: usize,
    pulls: usize,
}

impl<T> View for NativeStream<T> {
    type V = StreamView<T>;

    closed spec fn view(&self) -> StreamView<T> {
        StreamView { items: self.items@, pos: self.pos as int, pulls: self.pulls as int }
    }
}

impl<T> NativeStream<T> {
    /// A fresh stream that will produce `items` in order, not yet polled.
    pub fn from_items(items: Vec<T>) -> (s: Self)
        ensures
            s@.items == items@,
            s@.pos == 0,
            s@.pulls == 0,
            s@.wf(),
    {
        NativeStream { items, pos: 0, pulls: 0 }
    }

    /// How many times the producer has been polled.
    pub fn pulls(&self) -> (n: usize)
        ensures
            n == self@.pulls,
    {
        self.pulls
    }
}

impl<T: Copy> NativeStream<T> {
    /// Pulls once: `Some(item)` under the end, `None` at it. The cursor
    /// advances irreversibly; a stream at its end stays there forever.
    pub fn poll_next(&mut self) -> (r: Option<T>)
        requires
            old(self)@.pulls < usize::MAX,
        ensures
            final(self)@ == old(self)@.spec_poll().0,
            r == old(self)@.spec_poll().1,
            old(self)@.wf() ==> final(self)@.wf(),
    {
        self.pulls = self.pulls + 1;
        if self.pos < self.items.len() {
            let v = self.items[self.pos];
            self.pos = self.pos + 1;
            Some(v)
        } else {
            None
        }
    }
}

} // verus!
