//! The `delete` command: which scrobbles to delete, and what to report.

use vstd::prelude::*;
use crate::types::{Track, TrackView};

verus! {

broadcast use vstd::string::group_string_axioms;

/// What the `delete` command reports.
#[allow(inconsistent_fields)]
#[derive(Debug, Clone)]
pub enum DeleteEvent {
    ScrobbleFound { index: usize, offset: Option<u64>, artist: String, track: String, timestamp: Option<u64> },
    ScrobbleDeleted { index: usize, artist: String, track: String, timestamp: u64, success: bool, message: Option<String> },
    Summary { total_found: usize, successful_deletions: usize, failed_deletions: usize, dry_run: bool },
}

/// A scrobble chosen for deletion.
#[derive(Debug, Clone)]
pub struct ScrobbleToDelete {
    pub artist: String,
    pub track: String,
    pub timestamp: u64,
}

/// The chosen scrobbles as (artist, track, time) triples.
pub open spec fn chosen_view(s: Seq<ScrobbleToDelete>) -> Seq<(Seq<char>, Seq<char>, u64)> {
    s.map_values(|x: ScrobbleToDelete| (x.artist@, x.track@, x.timestamp))
}

/// The dated scrobbles among `ts` whose time lies in `[start, end]`, as deletion targets.
pub open spec fn dated_in_range(ts: Seq<TrackView>, start: u64, end: u64) -> Seq<(Seq<char>, Seq<char>, u64)>
    decreases ts.len(),
{
    if ts.len() == 0 {
        Seq::empty()
    } else {
        let prev = dated_in_range(ts.drop_last(), start, end);
        match ts.last().timestamp {
            Some(t) => if start <= t <= end { prev.push((ts.last().artist, ts.last().name, t)) } else { prev },
            None => prev,
        }
    }
}

/// The dated scrobbles of a page whose time lies in `[start, end]`, in order; pass the whole
/// range of `u64` to keep every dated scrobble.
pub fn select_dated(scrobbles: &Vec<Track>, start: u64, end: u64) -> (res: Vec<ScrobbleToDelete>)
    ensures
        chosen_view(res@) == dated_in_range(scrobbles.deep_view(), start, end),
{
    let ghost sv = scrobbles.deep_view();
    let mut out: Vec<ScrobbleToDelete> = Vec::new();
    let mut i: usize = 0;
    while i < scrobbles.len()
        invariant
            i <= scrobbles@.len(),
            sv == scrobbles.deep_view(),
            chosen_view(out@) == dated_in_range(sv.take(i as int), start, end),
        decreases scrobbles.len() - i,
    {
        assert(sv.take(i + 1).drop_last() =~= sv.take(i as int));
        assert(sv.take(i + 1).last() == scrobbles@[i as int]@);
        let ghost before = out@;
        match scrobbles[i].timestamp {
            Some(t) => {
                if start <= t && t <= end {
                    let x = ScrobbleToDelete { artist: scrobbles[i].artist.clone(), track: scrobbles[i].name.clone(), timestamp: t };
                    out.push(x);
                    assert(chosen_view(out@) =~= chosen_view(before).push((x.artist@, x.track@, t)));
                }
            },
            None => {},
        }
        i = i + 1;
    }
    assert(sv.take(i as int) =~= sv);
    out
}

/// How many of the most recent scrobbles must be collected to reach `end_offset`.
pub fn needed_scrobbles(end_offset: u64) -> (res: u64)
    requires
        end_offset < u64::MAX,
    ensures
        res == end_offset + 1,
{
    end_offset + 1
}

/// The scrobbles at offsets `start..=end` of the collected ones (counting from 0, the end cut to
/// what was collected), with their offsets; `None` when fewer than `start + 1` were collected.
pub open spec fn offset_range(ts: Seq<TrackView>, start: u64, end: u64) -> Option<Seq<(u64, TrackView)>> {
    if ts.len() <= start {
        None
    } else {
        let last = if end < ts.len() - 1 { end as int } else { ts.len() - 1 };
        Some(Seq::new((last - start + 1) as nat, |i: int| ((start + i) as u64, ts[start + i])))
    }
}

/// The scrobbles at offsets `start..=end` of the collected ones, with their offsets.
pub fn scrobbles_at_offsets(all: &Vec<Track>, start_offset: u64, end_offset: u64) -> (res: Option<Vec<(u64, Track)>>)
    requires
        start_offset <= end_offset,
    ensures
        match offset_range(all.deep_view(), start_offset, end_offset) {
            Some(v) => res matches Some(r) && r@.len() == v.len()
                && forall|i: int| 0 <= i < v.len() ==> (#[trigger] r@[i]).0 == v[i].0 && r@[i].1@ == v[i].1,
            None => res is None,
        },
{
    let n = all.len();
    if (n as u64) <= start_offset {
        return None;
    }
    let start = start_offset as usize;
    let last: usize = if end_offset < (n - 1) as u64 { end_offset as usize } else { n - 1 };
    let mut out: Vec<(u64, Track)> = Vec::new();
    let mut i = start;
    while i <= last
        invariant
            start <= i <= last + 1,
            last < n,
            n == all@.len(),
            start == start_offset,
            out@.len() == i - start,
            forall|k: int| 0 <= k < out@.len() ==> (#[trigger] out@[k]).0 == start_offset + k && out@[k].1@ == all@[start + k]@,
        decreases last + 1 - i,
    {
        out.push((i as u64, crate::parsing::clone_track(&all[i])));
        i = i + 1;
    }
    Some(out)
}

/// The dated scrobbles among those at the chosen offsets, as deletion targets.
pub fn dated_at_offsets(chosen: &Vec<(u64, Track)>) -> (res: Vec<ScrobbleToDelete>)
    ensures
        chosen_view(res@) == dated_in_range(chosen@.map_values(|p: (u64, Track)| p.1@), 0, u64::MAX),
{
    let ghost cv = chosen@.map_values(|p: (u64, Track)| p.1@);
    let mut out: Vec<ScrobbleToDelete> = Vec::new();
    let mut i: usize = 0;
    while i < chosen.len()
        invariant
            i <= chosen@.len(),
            cv == chosen@.map_values(|p: (u64, Track)| p.1@),
            chosen_view(out@) == dated_in_range(cv.take(i as int), 0, u64::MAX),
        decreases chosen.len() - i,
    {
        assert(cv.take(i + 1).drop_last() =~= cv.take(i as int));
        let ghost before = out@;
        let t = &chosen[i].1;
        match t.timestamp {
            Some(ts) => {
                let x = ScrobbleToDelete { artist: t.artist.clone(), track: t.name.clone(), timestamp: ts };
                out.push(x);
                assert(chosen_view(out@) =~= chosen_view(before).push((x.artist@, x.track@, ts)));
            },
            None => {},
        }
        i = i + 1;
    }
    assert(cv.take(i as int) =~= cv);
    out
}

/// The report of one deletion attempt: deleted, refused, or failed with an error text.
pub fn deletion_event(index: usize, scrobble: &ScrobbleToDelete, outcome: Result<bool, String>) -> (res: DeleteEvent)
    ensures
        match res {
            DeleteEvent::ScrobbleDeleted { index: i, artist, track, timestamp, success, message } => {
                &&& i == index
                &&& artist@ == scrobble.artist@
                &&& track@ == scrobble.track@
                &&& timestamp == scrobble.timestamp
                &&& match outcome {
                    Ok(true) => success && message is None,
                    Ok(false) => !success && message.deep_view() == Some("Deletion failed"@),
                    Err(e) => !success && message.deep_view() == Some(e@),
                }
            },
            _ => false,
        },
{
    let (success, message) = match outcome {
        Ok(true) => (true, None),
        Ok(false) => (false, Some(String::from_str("Deletion failed"))),
        Err(e) => (false, Some(e)),
    };
    DeleteEvent::ScrobbleDeleted {
        index,
        artist: scrobble.artist.clone(),
        track: scrobble.track.clone(),
        timestamp: scrobble.timestamp,
        success,
        message,
    }
}

/// The summary that ends a run of deletions.
pub fn deletion_summary(total_found: usize, successful_deletions: usize, failed_deletions: usize, dry_run: bool) -> (res: DeleteEvent)
    ensures
        res == (DeleteEvent::Summary { total_found, successful_deletions, failed_deletions, dry_run }),
{
    DeleteEvent::Summary { total_found, successful_deletions, failed_deletions, dry_run }
}

/// How many deletions succeeded and how many failed so far.
#[derive(Debug, Clone, Copy)]
pub struct DeletionTally {
    pub successful: usize,
    pub failed: usize,
}

impl DeletionTally {
    /// No deletion yet.
    pub fn new() -> (res: Self)
        ensures
            res.successful == 0,
            res.failed == 0,
    {
        DeletionTally { successful: 0, failed: 0 }
    }

    /// Counts a deletion event: a successful one among the successes, a failed one among the
    /// failures; any other event changes nothing.
    pub fn record(&mut self, event: &DeleteEvent)
        requires
            old(self).successful + old(self).failed < usize::MAX,
        ensures
            match event {
                DeleteEvent::ScrobbleDeleted { success, .. } => if *success {
                    final(self).successful == old(self).successful + 1 && final(self).failed == old(self).failed
                } else {
                    final(self).successful == old(self).successful && final(self).failed == old(self).failed + 1
                },
                _ => *final(self) == *old(self),
            },
    {
        match event {
            DeleteEvent::ScrobbleDeleted { success, .. } => {
                if *success {
                    self.successful = self.successful + 1;
                } else {
                    self.failed = self.failed + 1;
                }
            },
            _ => {},
        }
    }
}

} // verus!
