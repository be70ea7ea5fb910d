//! The `show` command: which scrobbles to collect and what to show for each offset.

use vstd::prelude::*;
use crate::types::{Track, TrackView};

verus! {

broadcast use vstd::seq_lib::group_to_multiset_ensures;

/// What the `show` command reports for one offset.
#[derive(Debug, Clone)]
pub enum ShowEvent {
    ScrobbleDetails { offset: u64, scrobble: Track },
    OffsetUnavailable { offset: u64, total_available: usize },
}

/// The largest offset asked for.
pub fn max_offset(offsets: &Vec<u64>) -> (res: u64)
    requires
        offsets@.len() > 0,
    ensures
        offsets@.contains(res),
        forall|i: int| 0 <= i < offsets@.len() ==> offsets@[i] <= res,
{
    let mut m = offsets[0];
    let mut i: usize = 1;
    while i < offsets.len()
        invariant
            1 <= i <= offsets@.len(),
            offsets@.contains(m),
            forall|j: int| 0 <= j < i ==> offsets@[j] <= m,
        decreases offsets.len() - i,
    {
        if offsets[i] > m {
            m = offsets[i];
        }
        i = i + 1;
    }
    m
}

/// The offsets that lie beyond the scrobbles collected, in the order asked.
pub open spec fn unavailable(offsets: Seq<u64>, total: nat) -> Seq<u64> {
    offsets.filter(|o: u64| o >= total)
}

/// The offsets that lie beyond the scrobbles collected, in the order asked.
pub fn unavailable_offsets(offsets: &Vec<u64>, total: usize) -> (res: Vec<u64>)
    ensures
        res@ == unavailable(offsets@, total as nat),
{
    let mut out: Vec<u64> = Vec::new();
    let mut i: usize = 0;
    while i < offsets.len()
        invariant
            i <= offsets@.len(),
            out@ == unavailable(offsets@.take(i as int), total as nat),
        decreases offsets.len() - i,
    {
        proof {
            let t = offsets@.take(i + 1);
            assert(t.drop_last() =~= offsets@.take(i as int));
            reveal(Seq::filter);
        }
        if offsets[i] >= total as u64 {
            out.push(offsets[i]);
        }
        i = i + 1;
    }
    assert(offsets@.take(i as int) =~= offsets@);
    out
}

pub open spec fn sorted(s: Seq<u64>) -> bool {
    forall|i: int, j: int| 0 <= i <= j < s.len() ==> s[i] <= s[j]
}

/// The offsets in increasing order.
pub fn sorted_offsets(offsets: &Vec<u64>) -> (res: Vec<u64>)
    ensures
        sorted(res@),
        res@.to_multiset() == offsets@.to_multiset(),
{
    let mut out: Vec<u64> = Vec::new();
    let mut i: usize = 0;
    while i < offsets.len()
        invariant
            i <= offsets@.len(),
            sorted(out@),
            out@.to_multiset() == offsets@.take(i as int).to_multiset(),
        decreases offsets.len() - i,
    {
        let x = offsets[i];
        let mut p: usize = 0;
        while p < out.len() && out[p] <= x
            invariant
                p <= out@.len(),
                forall|j: int| 0 <= j < p ==> out@[j] <= x,
            decreases out.len() - p,
        {
            p = p + 1;
        }
        let ghost before = out@;
        out.insert(p, x);
        assert(out@ == before.insert(p as int, x));
        assert(offsets@.take(i + 1) =~= offsets@.take(i as int).push(x));
        assert(sorted(out@)) by {
            assert forall|a: int, b: int| 0 <= a <= b < out@.len() implies out@[a] <= out@[b] by {
                if p < before.len() {
                    assert(x < before[p as int]);
                }
            }
        }
        i = i + 1;
    }
    assert(offsets@.take(i as int) =~= offsets@);
    out
}

/// What is shown for each offset, in increasing order of offset: the scrobble when it was
/// collected, otherwise the count of scrobbles available.
pub fn show_events(sorted: &Vec<u64>, all_scrobbles: &Vec<Track>) -> (res: Vec<ShowEvent>)
    ensures
        res@.len() == sorted@.len(),
        forall|i: int| 0 <= i < sorted@.len() ==> match #[trigger] res@[i] {
            ShowEvent::ScrobbleDetails { offset, scrobble } => offset == sorted@[i] && offset < all_scrobbles@.len()
                && scrobble@ == all_scrobbles@[offset as int]@,
            ShowEvent::OffsetUnavailable { offset, total_available } => offset == sorted@[i] && offset
                >= all_scrobbles@.len() && total_available == all_scrobbles@.len(),
        },
{
    let mut out: Vec<ShowEvent> = Vec::new();
    let mut i: usize = 0;
    while i < sorted.len()
        invariant
            i <= sorted@.len(),
            out@.len() == i,
            forall|k: int| 0 <= k < i ==> match #[trigger] out@[k] {
                ShowEvent::ScrobbleDetails { offset, scrobble } => offset == sorted@[k] && offset < all_scrobbles@.len()
                    && scrobble@ == all_scrobbles@[offset as int]@,
                ShowEvent::OffsetUnavailable { offset, total_available } => offset == sorted@[k] && offset
                    >= all_scrobbles@.len() && total_available == all_scrobbles@.len(),
            },
        decreases sorted.len() - i,
    {
        let offset = sorted[i];
        if offset < all_scrobbles.len() as u64 {
            let t = crate::parsing::clone_track(&all_scrobbles[offset as usize]);
            out.push(ShowEvent::ScrobbleDetails { offset, scrobble: t });
        } else {
            out.push(ShowEvent::OffsetUnavailable { offset, total_available: all_scrobbles.len() });
        }
        i = i + 1;
    }
    out
}

/// The number of offsets below the count of scrobbles collected.
pub fn shown_count(sorted: &Vec<u64>, total: usize) -> (res: usize)
    ensures
        res == sorted@.filter(|o: u64| o < total).len(),
{
    let mut n: usize = 0;
    let mut i: usize = 0;
    while i < sorted.len()
        invariant
            i <= sorted@.len(),
            n == sorted@.take(i as int).filter(|o: u64| o < total).len(),
            n <= i,
        decreases sorted.len() - i,
    {
        proof {
            assert(sorted@.take(i + 1).drop_last() =~= sorted@.take(i as int));
            reveal(Seq::filter);
        }
        if sorted[i] < total as u64 {
            n = n + 1;
        }
        i = i + 1;
    }
    assert(sorted@.take(i as int) =~= sorted@);
    n
}

} // verus!
