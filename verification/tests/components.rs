use stream_bridge::record::IterationResult;
use stream_bridge::state::IterationState;
use stream_bridge::stream::NativeStream;
use stream_bridge::wrapper::{BridgeError, StreamWrapper};

#[test]
fn record_from_item_carries_value() {
    let r: IterationResult<u64> = IterationResult::from_event(Some(42));
    assert!(!r.done);
    assert_eq!(r.value, Some(42));
}

#[test]
fn record_from_end_has_no_value() {
    let r: IterationResult<u64> = IterationResult::from_event(None);
    assert!(r.done);
    assert_eq!(r.value, None);
}

#[test]
fn should_poll_until_end() {
    let mut s = IterationState::new();
    assert!(s.should_poll());
    let r = s.settle(Some(5u64));
    assert!(!r.done);
    assert!(s.should_poll());
    let end = s.settle::<u64>(None);
    assert!(end.done);
    assert!(!s.should_poll());
}

#[test]
fn settle_after_exhaustion_ignores_event() {
    let mut s = IterationState::new();
    s.settle::<u64>(None);
    // once exhausted, a step resolves done with no value whatever comes back
    let r = s.settle(Some(9u64));
    assert!(r.done);
    assert_eq!(r.value, None);
    assert!(!s.should_poll());
}

#[test]
fn stream_polls_in_order() {
    let mut s = NativeStream::from_items(vec![3u64, 1, 4]);
    assert_eq!(s.poll_next(), Some(3));
    assert_eq!(s.poll_next(), Some(1));
    assert_eq!(s.poll_next(), Some(4));
    assert_eq!(s.poll_next(), None);
    assert_eq!(s.poll_next(), None);
    assert_eq!(s.pulls(), 5);
}

#[test]
fn second_acquire_fails_loudly() {
    let mut w = StreamWrapper::new(NativeStream::from_items(vec![8u64]));
    assert!(w.acquire().is_ok());
    // the borrow is already held: the second attempt fails and changes nothing
    let denied = w.acquire();
    assert!(matches!(denied, Err(BridgeError::BorrowViolation)));
    // the first pull still completes normally and releases the borrow
    assert_eq!(w.poll_locked(), Some(8));
    assert!(w.acquire().is_ok());
    assert_eq!(w.poll_locked(), None);
    assert_eq!(w.pulls(), 2);
}
