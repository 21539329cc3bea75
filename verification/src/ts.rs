//! The video window: the end of an MPEG-TS stream, cut where a packet starts.

use vstd::prelude::*;
use vstd::slice::slice_subrange;

use crate::ring::{is_end_of, last_items};

verus! {

/// The length of a transport stream packet.
pub const PACKET: usize = 188;

/// The byte that every packet starts with.
pub const SYNC: u8 = 0x47;

/// Whether two packets in a row start at `i`: a sync byte, and another one packet
/// later.
pub open spec fn sync_at(win: Seq<u8>, i: int) -> bool {
    0 <= i && i + PACKET < win.len() && win[i] == SYNC && win[i + PACKET] == SYNC
}

/// Whether `i` is the first place in the window where two packets in a row start.
pub open spec fn first_sync(win: Seq<u8>, i: int) -> bool {
    sync_at(win, i) && forall|j: int| 0 <= j < i ==> !sync_at(win, j)
}

/// The window from the first place on where two packets in a row start; the whole
/// window where there is none.
pub open spec fn resynced(win: Seq<u8>) -> Seq<u8> {
    if exists|i: int| first_sync(win, i) {
        win.skip(choose|i: int| first_sync(win, i))
    } else {
        win
    }
}

/// The last `keep_bytes` bytes of the ring, from the first packet start on.
pub fn cut_ts_window(ring: &[u8], keep_bytes: usize) -> (r: &[u8])
    ensures
        r@ == resynced(last_items(ring@, keep_bytes as nat)),
{
    let start: usize = if ring.len() > keep_bytes {
        ring.len() - keep_bytes
    } else {
        0
    };
    let win: &[u8] = slice_subrange(ring, start, ring.len());
    let ghost w = last_items(ring@, keep_bytes as nat);
    assert(win@ =~= w);
    let scan: usize = if win.len() > PACKET {
        win.len() - PACKET
    } else {
        0
    };
    for i in 0..scan
        invariant
            win@ == w,
            w == last_items(ring@, keep_bytes as nat),
            scan > 0 ==> scan + PACKET == win@.len(),
            forall|j: int| 0 <= j < i ==> !sync_at(w, j),
    {
        if win[i] == SYNC && win[i + PACKET] == SYNC {
            proof {
                assert(first_sync(w, i as int));
                let k = choose|k: int| first_sync(w, k);
                assert(k == i);
                assert(w.skip(k) =~= w.subrange(i as int, w.len() as int));
            }
            return slice_subrange(win, i, win.len());
        }
    }
    win
}

/// The window that is cut is an end of the ring, no longer than asked for and
/// never empty while there is anything to deliver.
pub proof fn law_cut_is_an_end(ring: Seq<u8>, keep_bytes: nat)
    ensures
        ({
            let cut = resynced(last_items(ring, keep_bytes));
            &&& is_end_of(cut, ring)
            &&& cut.len() <= keep_bytes
            &&& ring.len() > 0 && keep_bytes > 0 ==> cut.len() > 0
        }),
{
    let win = last_items(ring, keep_bytes);
    let cut = resynced(win);
    assert(ring.skip(ring.len() - cut.len()) =~= cut);
}

/// Wherever in the window two packets in a row start, the cut begins there or
/// before, with a sync byte, and so does the packet after it.
pub proof fn law_cut_starts_on_a_packet(win: Seq<u8>, i: int)
    requires
        sync_at(win, i),
    ensures
        resynced(win).len() >= win.len() - i,
        resynced(win)[0] == SYNC,
        resynced(win)[PACKET as int] == SYNC,
    decreases i,
{
    if exists|j: int| 0 <= j < i && sync_at(win, j) {
        let j = choose|j: int| 0 <= j < i && sync_at(win, j);
        law_cut_starts_on_a_packet(win, j);
    } else {
        assert(first_sync(win, i));
        let k = choose|k: int| first_sync(win, k);
        assert(k == i);
    }
}

/// A window in which no two packets in a row start is delivered whole.
pub proof fn law_unsynced_window_is_whole(win: Seq<u8>)
    requires
        forall|i: int| !sync_at(win, i),
    ensures
        resynced(win) == win,
{
}

/// The cut begins at the first byte 0x47 that has another one 188 bytes behind it,
/// wherever that stands; without such a pair nothing is cut off.
pub proof fn law_cut_at_the_first_pair(win: Seq<u8>, i: int)
    ensures
        ({
            let pair = |j: int|
                0 <= j && j + 188 < win.len() && win[j] == 0x47 && win[j + 188] == 0x47;
            &&& pair(i) && (forall|j: int| 0 <= j < i ==> !#[trigger] pair(j)) ==> resynced(win)
                == win.skip(i)
            &&& (forall|j: int| !#[trigger] pair(j)) ==> resynced(win) == win
        }),
{
    let pair = |j: int| 0 <= j && j + 188 < win.len() && win[j] == 0x47 && win[j + 188] == 0x47;
    assert forall|j: int| sync_at(win, j) == #[trigger] pair(j) by {}
    if pair(i) && (forall|j: int| 0 <= j < i ==> !#[trigger] pair(j)) {
        assert forall|j: int| 0 <= j < i implies !sync_at(win, j) by {
            assert(!pair(j));
        }
        assert(first_sync(win, i));
        let k = choose|k: int| first_sync(win, k);
        assert(k == i);
    }
    if forall|j: int| !#[trigger] pair(j) {
        assert forall|j: int| !first_sync(win, j) by {
            assert(!pair(j));
        }
    }
}

} // verus!
