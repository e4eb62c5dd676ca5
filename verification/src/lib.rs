//! A verified model of a bridge that adapts a pull-based, single-consumer
//! stream into a host runtime's asynchronous-iteration protocol.
//!
//! The bridge hands the host an object whose `next` operation yields, one
//! call at a time, an iteration-result record: `{ done: false, value }` while
//! the stream still produces items, and `{ done: true }` forever once it is
//! exhausted. The modules here state and prove the rules of that protocol:
//! how a record is built from one pull, how exhaustion becomes terminal, how
//! pulls are serialized against the shared stream, and how the whole bridge
//! delivers a finite source in order, exactly once.

pub mod bridge;
pub mod laws;
pub mod record;
pub mod state;
pub mod stream;
pub mod wrapper;
