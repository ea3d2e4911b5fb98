//! The sliding window over the admission times of one flow.

use std::collections::VecDeque;
use vstd::prelude::*;

verus! {

/// A point in time or a length of time, in nanoseconds. Points in time are
/// counted on a monotonic clock from an arbitrary start.
pub type Nanos = u128;

/// An admission at `stamp` still counts at `now` when no more than `window`
/// has passed since. An admission that lies after `now` has age zero.
pub open spec fn is_fresh(stamp: Nanos, now: Nanos, window: Nanos) -> bool {
    now - stamp <= window
}

/// The test that `prune` applies to each admission time.
pub open spec fn fresh_at(now: Nanos, window: Nanos) -> spec_fn(Nanos) -> bool {
    |stamp: Nanos| is_fresh(stamp, now, window)
}

/// The admission times that still count at `now`, in their old order.
pub open spec fn prune(stamps: Seq<Nanos>, now: Nanos, window: Nanos) -> Seq<Nanos> {
    stamps.filter(fresh_at(now, window))
}

/// Pruning nothing leaves nothing.
pub proof fn lemma_prune_empty(now: Nanos, window: Nanos)
    ensures
        prune(Seq::empty(), now, window) == Seq::<Nanos>::empty(),
{
    reveal(Seq::filter);
}

/// Pruning handles the last admission time on its own: it is kept behind
/// the rest if it still counts, and dropped if not.
pub proof fn lemma_prune_push(stamps: Seq<Nanos>, last: Nanos, now: Nanos, window: Nanos)
    ensures
        prune(stamps.push(last), now, window) == if is_fresh(last, now, window) {
            prune(stamps, now, window).push(last)
        } else {
            prune(stamps, now, window)
        },
{
    reveal(Seq::filter);
    assert(stamps.push(last).drop_last() == stamps);
}

/// Pruning never adds an admission time.
pub proof fn lemma_prune_len(stamps: Seq<Nanos>, now: Nanos, window: Nanos)
    ensures
        prune(stamps, now, window).len() <= stamps.len(),
{
    stamps.lemma_filter_len(fresh_at(now, window));
}

/// Pruning keeps exactly the admission times that still count: each of them
/// as often as it was recorded, and none of the others.
pub proof fn lemma_prune_keeps_exactly_the_fresh(stamps: Seq<Nanos>, now: Nanos, window: Nanos)
    ensures
        forall|stamp: Nanos|
            #![trigger prune(stamps, now, window).to_multiset().count(stamp)]
            prune(stamps, now, window).to_multiset().count(stamp) == if is_fresh(
                stamp,
                now,
                window,
            ) {
                stamps.to_multiset().count(stamp)
            } else {
                0
            },
    decreases stamps.len(),
{
    broadcast use vstd::seq_lib::to_multiset_build;
    broadcast use vstd::multiset::group_multiset_axioms;

    if stamps.len() == 0 {
        lemma_prune_empty(now, window);
        assert(stamps == Seq::<Nanos>::empty());
        Seq::<Nanos>::empty().to_multiset_ensures();
    } else {
        let rest = stamps.drop_last();
        let last = stamps.last();
        assert(stamps == rest.push(last));
        lemma_prune_keeps_exactly_the_fresh(rest, now, window);
        lemma_prune_push(rest, last, now, window);
    }
}

/// Every admission time that pruning keeps still counts.
pub proof fn lemma_prune_only_fresh(stamps: Seq<Nanos>, now: Nanos, window: Nanos)
    ensures
        forall|i: int|
            0 <= i < prune(stamps, now, window).len() ==> is_fresh(
                #[trigger] prune(stamps, now, window)[i],
                now,
                window,
            ),
    decreases stamps.len(),
{
    if stamps.len() == 0 {
        lemma_prune_empty(now, window);
        assert(stamps == Seq::<Nanos>::empty());
    } else {
        let rest = stamps.drop_last();
        assert(stamps == rest.push(stamps.last()));
        lemma_prune_only_fresh(rest, now, window);
        lemma_prune_push(rest, stamps.last(), now, window);
    }
}

/// Pruning changes nothing where every admission time still counts.
pub proof fn lemma_prune_all_fresh(stamps: Seq<Nanos>, now: Nanos, window: Nanos)
    requires
        forall|i: int| 0 <= i < stamps.len() ==> is_fresh(#[trigger] stamps[i], now, window),
    ensures
        prune(stamps, now, window) == stamps,
    decreases stamps.len(),
{
    if stamps.len() == 0 {
        lemma_prune_empty(now, window);
        assert(stamps == Seq::<Nanos>::empty());
    } else {
        let rest = stamps.drop_last();
        assert(stamps == rest.push(stamps.last()));
        lemma_prune_all_fresh(rest, now, window);
        lemma_prune_push(rest, stamps.last(), now, window);
    }
}

/// Pruning leaves nothing exactly where no admission time still counts.
pub proof fn lemma_prune_empty_iff_none_fresh(stamps: Seq<Nanos>, now: Nanos, window: Nanos)
    ensures
        prune(stamps, now, window).len() == 0 <==> forall|i: int|
            0 <= i < stamps.len() ==> !is_fresh(#[trigger] stamps[i], now, window),
    decreases stamps.len(),
{
    if stamps.len() == 0 {
        lemma_prune_empty(now, window);
        assert(stamps == Seq::<Nanos>::empty());
    } else {
        let rest = stamps.drop_last();
        assert(stamps == rest.push(stamps.last()));
        lemma_prune_empty_iff_none_fresh(rest, now, window);
        lemma_prune_push(rest, stamps.last(), now, window);
        if is_fresh(stamps.last(), now, window) {
            assert(is_fresh(stamps[stamps.len() - 1], now, window));
        } else if forall|i: int|
            0 <= i < rest.len() ==> !is_fresh(#[trigger] rest[i], now, window) {
            assert forall|i: int| 0 <= i < stamps.len() implies !is_fresh(
                #[trigger] stamps[i],
                now,
                window,
            ) by {
                if i < rest.len() {
                    assert(stamps[i] == rest[i]);
                }
            }
        } else {
            let i = choose|i: int| 0 <= i < rest.len() && is_fresh(#[trigger] rest[i], now, window);
            assert(is_fresh(stamps[i], now, window));
        }
    }
}

/// Decides whether an admission at `stamp` still counts at `now`.
pub fn still_fresh(stamp: Nanos, now: Nanos, window: Nanos) -> (fresh: bool)
    ensures
        fresh == is_fresh(stamp, now, window),
{
    stamp >= now || now - stamp <= window
}

/// Copies the admission times that still count at `now`, in their old order.
pub fn retain_fresh(stamps: &VecDeque<Nanos>, now: Nanos, window: Nanos) -> (kept: VecDeque<Nanos>)
    ensures
        kept@ == prune(stamps@, now, window),
{
    let mut kept: VecDeque<Nanos> = VecDeque::new();
    let mut i: usize = 0;
    proof {
        lemma_prune_empty(now, window);
        assert(stamps@.take(0) == Seq::<Nanos>::empty());
    }
    while i < stamps.len()
        invariant
            i <= stamps@.len(),
            kept@ == prune(stamps@.take(i as int), now, window),
        decreases stamps@.len() - i,
    {
        let stamp: Nanos = stamps[i];
        proof {
            lemma_prune_push(stamps@.take(i as int), stamp, now, window);
            assert(stamps@.take(i as int).push(stamp) == stamps@.take(i + 1));
        }
        if still_fresh(stamp, now, window) {
            kept.push_back(stamp);
        }
        i += 1;
    }
    assert(stamps@.take(stamps@.len() as int) == stamps@);
    kept
}

} // verus!
