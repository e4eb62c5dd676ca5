use stream_bridge::bridge::AsyncIterator;
use stream_bridge::stream::NativeStream;

fn bridge_over(items: Vec<u64>) -> AsyncIterator<u64> {
    AsyncIterator::new(NativeStream::from_items(items))
}

#[test]
fn five_items_then_done() {
    let mut b = bridge_over(vec![1, 2, 3, 4, 5]);
    for expected in 1..=5u64 {
        let r = b.next();
        assert!(!r.done);
        assert_eq!(r.value, Some(expected));
    }
    let sixth = b.next();
    assert!(sixth.done);
    assert_eq!(sixth.value, None);
    let seventh = b.next();
    assert!(seventh.done);
    assert_eq!(seventh.value, None);
}

#[test]
fn empty_source_done_immediately() {
    let mut b = bridge_over(vec![]);
    let first = b.next();
    assert!(first.done);
    assert_eq!(first.value, None);
}

#[test]
fn exhaustion_is_permanent() {
    let mut b = bridge_over(vec![7]);
    assert_eq!(b.next().value, Some(7));
    let end = b.next();
    assert!(end.done);
    for _ in 0..10 {
        let r = b.next();
        assert!(r.done);
        assert_eq!(r.value, None);
    }
}

#[test]
fn no_double_advance_pull_count() {
    let mut b = bridge_over(vec![10, 20, 30]);
    b.next();
    b.next();
    b.next();
    // three well-behaved awaited calls: exactly three producer polls
    assert_eq!(b.pulls(), 3);
    // the fourth call observes the end: one more poll, once only
    assert!(b.next().done);
    assert_eq!(b.pulls(), 4);
    // post-exhaustion calls never touch the producer again
    b.next();
    b.next();
    assert_eq!(b.pulls(), 4);
}

#[test]
fn pipelined_calls_stay_ordered() {
    let mut b = bridge_over(vec![100, 200]);
    // two invocations issued back to back, neither awaited yet
    b.invoke_next();
    b.invoke_next();
    // settlements happen in invocation order: items in order, no duplicate, no swap
    let first = b.complete_oldest();
    let second = b.complete_oldest();
    assert_eq!(first.value, Some(100));
    assert_eq!(second.value, Some(200));
}

#[test]
fn marker_returns_same_object() {
    let b = bridge_over(vec![1, 2]);
    let it1 = b.iterator_object();
    let it2 = b.iterator_object();
    assert!(it1 == it2);
    assert!(it1 == &b);
}
