//! Replay rings: memory that keeps the latest items and forgets the oldest.

use vstd::prelude::*;
use vstd::slice::slice_to_vec;

verus! {

/// The last `n` items of `s`, or all of them where there are fewer.
pub open spec fn last_items<T>(s: Seq<T>, n: nat) -> Seq<T> {
    if s.len() > n {
        s.skip(s.len() - n)
    } else {
        s
    }
}

/// A ring after `items` came in: once it holds more than `slack` items beyond
/// its capacity, all but the last `capacity` are forgotten.
pub open spec fn ring_after<T>(ring: Seq<T>, items: Seq<T>, capacity: nat, slack: nat) -> Seq<T> {
    let all = ring + items;
    if all.len() > capacity + slack {
        last_items(all, capacity)
    } else {
        all
    }
}

/// Takes `items` into the ring.
pub fn ring_push<T: Copy>(ring: &mut Vec<T>, items: &[T], capacity: usize, slack: usize)
    requires
        old(ring)@.len() + items@.len() <= usize::MAX,
        capacity + slack <= usize::MAX,
    ensures
        final(ring)@ == ring_after(old(ring)@, items@, capacity as nat, slack as nat),
{
    let mut fresh: Vec<T> = slice_to_vec(items);
    ring.append(&mut fresh);
    assert(ring@ =~= old(ring)@ + items@);
    if ring.len() > capacity + slack {
        let excess: usize = ring.len() - capacity;
        let ghost all = ring@;
        let kept: Vec<T> = ring.split_off(excess);
        assert(kept@ =~= all.skip(all.len() - capacity));
        *ring = kept;
    }
}

/// The last `n` items of `v`.
pub fn last_of<T>(v: Vec<T>, n: usize) -> (r: Vec<T>)
    ensures
        r@ == last_items(v@, n as nat),
{
    let mut v: Vec<T> = v;
    if v.len() > n {
        let at: usize = v.len() - n;
        let ghost all = v@;
        let kept: Vec<T> = v.split_off(at);
        assert(kept@ =~= all.skip(all.len() - n));
        kept
    } else {
        v
    }
}

/// Whether `ring` holds the end of `history` and nothing else.
pub open spec fn is_end_of<T>(ring: Seq<T>, history: Seq<T>) -> bool {
    ring.len() <= history.len() && history.skip(history.len() - ring.len()) == ring
}

/// Whether a ring holds the end of all that came in, at least `capacity` items
/// of it (or all, where fewer came), and never more than `slack` beyond that.
pub open spec fn replays<T>(ring: Seq<T>, history: Seq<T>, capacity: nat, slack: nat) -> bool {
    &&& is_end_of(ring, history)
    &&& ring.len() >= capacity || ring.len() == history.len()
    &&& ring.len() <= capacity + slack
}

/// An empty ring replays an empty history.
pub proof fn law_empty_ring_replays<T>(capacity: nat, slack: nat)
    ensures
        replays(Seq::<T>::empty(), Seq::<T>::empty(), capacity, slack),
{
    assert(Seq::<T>::empty().skip(0) =~= Seq::<T>::empty());
}

/// Whatever comes in, a ring goes on holding the latest items: the end of the
/// history, at least as long as its capacity, and bounded.
pub proof fn law_ring_replays_latest<T>(
    ring: Seq<T>,
    history: Seq<T>,
    items: Seq<T>,
    capacity: nat,
    slack: nat,
)
    requires
        replays(ring, history, capacity, slack),
    ensures
        replays(
            ring_after(ring, items, capacity, slack),
            history + items,
            capacity,
            slack,
        ),
{
    let all = ring + items;
    let past = history + items;
    let next = ring_after(ring, items, capacity, slack);
    assert forall|i: int| 0 <= i < all.len() implies past[past.len() - all.len() + i]
        == #[trigger] all[i] by {
        if i < ring.len() {
            assert(history.skip(history.len() - ring.len())[i] == ring[i]);
        }
    }
    assert(past.skip(past.len() - next.len()) =~= next);
}

/// What a ring of that capacity gives back of the last `n` items is the same as
/// if nothing had ever been forgotten.
pub proof fn law_replay_is_exact<T>(
    ring: Seq<T>,
    history: Seq<T>,
    n: nat,
    capacity: nat,
    slack: nat,
)
    requires
        replays(ring, history, capacity, slack),
        n <= capacity,
    ensures
        last_items(ring, n) == last_items(history, n),
{
    if history.len() > n {
        assert forall|i: int| 0 <= i < ring.len() implies history[history.len() - ring.len() + i]
            == #[trigger] ring[i] by {
            assert(history.skip(history.len() - ring.len())[i] == ring[i]);
        }
        assert(last_items(ring, n) =~= last_items(history, n));
    } else {
        assert(ring =~= history) by {
            assert(history.skip(0) =~= history);
        }
    }
}

/// The last `n` items are the end of a row, `n` of them as long as there are so many.
pub proof fn law_last_items<T>(s: Seq<T>, n: nat)
    ensures
        is_end_of(last_items(s, n), s),
        s.len() >= n ==> last_items(s, n).len() == n,
        s.len() < n ==> last_items(s, n).len() == s.len(),
{
    assert(s.skip(0) =~= s);
    assert(s.skip(s.len() - last_items(s, n).len()) =~= last_items(s, n));
}

/// A ring forgets nothing until it runs over its slack, and then keeps exactly its
/// capacity.
pub proof fn law_ring_forgets_late<T>(ring: Seq<T>, items: Seq<T>, capacity: nat, slack: nat)
    ensures
        ring.len() + items.len() <= capacity + slack ==> ring_after(ring, items, capacity, slack)
            == ring + items,
        ring.len() + items.len() > capacity + slack ==> ring_after(ring, items, capacity, slack)
            == (ring + items).skip(ring.len() + items.len() - capacity),
{
}

} // verus!
