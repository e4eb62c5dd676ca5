//! The laws of the bridge: what any consumer of the protocol may rely on,
//! stated over the mathematical bridge state and proved once and for all.

use vstd::prelude::*;
use crate::bridge::{AsyncIterator, BridgeView};
use crate::record::IterationResult;

verus! {

/// The bridge state after `k` fully awaited `next` calls starting from `v`.
pub open spec fn run<T>(v: BridgeView<T>, k: nat) -> BridgeView<T>
    decreases k,
{
    if k == 0 {
        v
    } else {
        run(v, (k - 1) as nat).spec_next().0
    }
}

/// The shape of the bridge after `k` awaited calls on a fresh bridge over
/// `items`: the cursor stands at min(k, N), the producer has been polled
/// min(k, N + 1) times, exhaustion is recorded exactly when some call has
/// observed the end, and no borrow or unsettled invocation is left behind.
pub proof fn lemma_run_shape<T>(items: Seq<T>, k: nat)
    ensures
        run(BridgeView::initial(items), k).stream.items == items,
        run(BridgeView::initial(items), k).stream.pos
            == if k <= items.len() { k as int } else { items.len() as int },
        run(BridgeView::initial(items), k).stream.pulls
            == if k <= items.len() { k as int } else { items.len() as int + 1 },
        run(BridgeView::initial(items), k).exhausted == (k > items.len()),
        !run(BridgeView::initial(items), k).locked,
        run(BridgeView::initial(items), k).pending == 0,
    decreases k,
{
    if k > 0 {
        lemma_run_shape(items, (k - 1) as nat);
    }
}

/// For a finite source of length N, the first N awaited calls deliver the
/// source's items in their original order, each exactly once, and every
/// call after the N-th resolves `done == true` with no value.
pub proof fn lemma_sequential_delivery<T>(items: Seq<T>, k: nat)
    ensures
        k < items.len() ==> run(BridgeView::initial(items), k).spec_next().1
            == (IterationResult { done: false, value: Some(items[k as int]) }),
        k >= items.len() ==> run(BridgeView::initial(items), k).spec_next().1
            == (IterationResult::<T> { done: true, value: None }),
{
    lemma_run_shape(items, k);
}

/// Exhaustion is terminal: from any exhausted bridge state, every further
/// awaited call resolves `done == true` with no value, leaves the bridge
/// exhausted, and never touches the producer again.
pub proof fn lemma_exhaustion_terminal<T>(v: BridgeView<T>)
    requires
        v.exhausted,
    ensures
        v.spec_next().1.done,
        v.spec_next().1.value is None,
        v.spec_next().0.exhausted,
        v.spec_next().0.stream == v.stream,
{
}

/// No double-advance: `k` well-behaved awaited calls on a fresh bridge over
/// a source of at least `k` items poll the producer exactly `k` times —
/// never more.
pub proof fn lemma_no_double_advance<T>(items: Seq<T>, k: nat)
    requires
        k <= items.len(),
    ensures
        run(BridgeView::initial(items), k).stream.pulls == k,
{
    lemma_run_shape(items, k);
}

/// Serialization under pipelining: two `next` invocations issued back to
/// back, before either settles, still settle in invocation order and
/// deliver the two items under the cursor in their original order — never
/// duplicated, never swapped.
pub proof fn lemma_pipelined_pair_in_order<T>(v: BridgeView<T>)
    requires
        v.wf(),
        !v.exhausted,
        v.stream.pos + 2 <= v.stream.items.len(),
    ensures
        ({
            let both = v.spec_invoke().spec_invoke();
            let first = both.spec_complete();
            let second = first.0.spec_complete();
            &&& first.1 == (IterationResult {
                done: false,
                value: Some(v.stream.items[v.stream.pos]),
            })
            &&& second.1 == (IterationResult {
                done: false,
                value: Some(v.stream.items[v.stream.pos + 1]),
            })
        }),
{
}

/// Single-object identity: the iterable-marker operation answers with the
/// iterator object itself, so any two of its answers for one bridge are
/// the same object.
pub proof fn lemma_marker_identity<T>(b: AsyncIterator<T>, it1: AsyncIterator<T>, it2: AsyncIterator<T>)
    requires
        it1 == b,
        it2 == b,
    ensures
        it1 == it2,
{
}

} // verus!
