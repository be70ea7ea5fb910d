//! Walking through paginated listings: which page to fetch next and what each page yields.

use vstd::prelude::*;
use crate::types::{Track, TrackView, TrackPage};

verus! {

/// The position in a paginated listing: the next page to fetch, whether there is one, and the
/// page count when known.
#[derive(Debug, Clone, Copy, PartialEq, Eq)]
pub struct PageCursor {
    pub current_page: u32,
    pub has_more: bool,
    pub total_pages: Option<u32>,
}

impl PageCursor {
    /// A cursor at `starting_page` (at least page 1).
    pub fn with_starting_page(starting_page: u32) -> (res: Self)
        ensures
            res.current_page == if starting_page < 1 { 1 } else { starting_page },
            res.has_more,
            res.total_pages is None,
    {
        PageCursor { current_page: if starting_page < 1 { 1 } else { starting_page }, has_more: true, total_pages: None }
    }

    /// The page to fetch next, if any.
    pub fn next_page(&self) -> (res: Option<u32>)
        ensures
            res == if self.has_more { Some(self.current_page) } else { None::<u32> },
    {
        if self.has_more { Some(self.current_page) } else { None }
    }

    /// Records a fetched page: whether another follows and the page count.
    pub fn record_page(&mut self, has_next_page: bool, total_pages: Option<u32>)
        requires
            old(self).current_page < u32::MAX,
        ensures
            *final(self) == (PageCursor { current_page: (old(self).current_page + 1) as u32, has_more: has_next_page, total_pages }),
    {
        self.has_more = has_next_page;
        self.current_page = self.current_page + 1;
        self.total_pages = total_pages;
    }

    /// The number of the last page fetched (0 before the first).
    pub fn current_page_number(&self) -> (res: u32)
        ensures
            res == if self.current_page == 0 { 0 } else { (self.current_page - 1) as u32 },
    {
        if self.current_page == 0 { 0 } else { self.current_page - 1 }
    }
}

/// The tracks of a page that come before the first one scrobbled at or before `stop`, and
/// whether such a one was met.
pub open spec fn before_stop(ts: Seq<TrackView>, stop: u64) -> (Seq<TrackView>, bool)
    decreases ts.len(),
{
    if ts.len() == 0 {
        (ts, false)
    } else if ts[0].timestamp matches Some(t) && t <= stop {
        (Seq::empty(), true)
    } else {
        let rest = before_stop(ts.drop_first(), stop);
        (seq![ts[0]] + rest.0, rest.1)
    }
}

/// Walks through the recent scrobbles, newest first, optionally stopping at a time.
#[derive(Debug, Clone, Copy)]
pub struct RecentTracksCursor {
    pub cursor: PageCursor,
    pub stop_at_timestamp: Option<u64>,
}

impl RecentTracksCursor {
    /// A walk from page `starting_page` (at least 1), without a stop time.
    pub fn with_starting_page(starting_page: u32) -> (res: Self)
        ensures
            res.cursor.current_page == if starting_page < 1 { 1 } else { starting_page },
            res.cursor.has_more,
            res.stop_at_timestamp is None,
    {
        RecentTracksCursor { cursor: PageCursor::with_starting_page(starting_page), stop_at_timestamp: None }
    }

    /// The same walk, stopping before the first scrobble at or before `timestamp`.
    pub fn with_stop_timestamp(self, timestamp: u64) -> (res: Self)
        ensures
            res.cursor == self.cursor,
            res.stop_at_timestamp == Some(timestamp),
    {
        RecentTracksCursor { stop_at_timestamp: Some(timestamp), ..self }
    }

    /// Takes a fetched page and gives the tracks to yield, in order: an empty page ends the walk;
    /// otherwise the walk goes on if the page says so and no scrobble reached the stop time,
    /// whose scrobble and all after it are dropped.
    pub fn accept_page(&mut self, page: TrackPage) -> (res: Vec<Track>)
        requires
            old(self).cursor.current_page < u32::MAX,
        ensures
            page.tracks@.len() == 0 ==> res@.len() == 0 && !final(self).cursor.has_more
                && final(self).cursor.current_page == old(self).cursor.current_page,
            page.tracks@.len() > 0 ==> match old(self).stop_at_timestamp {
                Some(stop) => res.deep_view() == before_stop(page.tracks.deep_view(), stop).0
                    && final(self).cursor.has_more == (page.has_next_page && !before_stop(page.tracks.deep_view(), stop).1),
                None => res == page.tracks && final(self).cursor.has_more == page.has_next_page,
            } && final(self).cursor.current_page == old(self).cursor.current_page + 1,
            final(self).stop_at_timestamp == old(self).stop_at_timestamp,
    {
        if page.tracks.len() == 0 {
            self.cursor.has_more = false;
            return Vec::new();
        }
        let mut has_more = page.has_next_page;
        let out = match self.stop_at_timestamp {
            Some(stop) => {
                let ghost tv = page.tracks.deep_view();
                let mut kept: Vec<Track> = Vec::new();
                let mut i: usize = 0;
                let mut hit = false;
                assert(tv.skip(0) =~= tv);
                while i < page.tracks.len() && !hit
                    invariant
                        i <= page.tracks@.len(),
                        tv == page.tracks.deep_view(),
                        !hit ==> kept.deep_view() + before_stop(tv.skip(i as int), stop).0 == before_stop(tv, stop).0,
                        !hit ==> before_stop(tv.skip(i as int), stop).1 == before_stop(tv, stop).1,
                        hit ==> kept.deep_view() == before_stop(tv, stop).0 && before_stop(tv, stop).1,
                    decreases page.tracks.len() - i, if hit { 0int } else { 1int },
                {
                    let ghost rest = tv.skip(i as int);
                    assert(rest[0] == page.tracks@[i as int]@);
                    assert(rest.drop_first() =~= tv.skip(i + 1));
                    let stops = match page.tracks[i].timestamp {
                        Some(t) => t <= stop,
                        None => false,
                    };
                    if stops {
                        hit = true;
                        assert(kept.deep_view() + Seq::<TrackView>::empty() =~= kept.deep_view());
                    } else {
                        let ghost before = kept.deep_view();
                        let x = crate::parsing::clone_track(&page.tracks[i]);
                        kept.push(x);
                        assert(kept.deep_view() =~= before.push(x@));
                        assert(kept.deep_view() + before_stop(tv.skip(i + 1), stop).0 =~= before + before_stop(rest, stop).0);
                        i = i + 1;
                    }
                }
                proof {
                    if !hit {
                        assert(tv.skip(i as int).len() == 0);
                        assert(kept.deep_view() + Seq::<TrackView>::empty() =~= kept.deep_view());
                    }
                }
                if hit {
                    has_more = false;
                }
                kept
            },
            None => page.tracks,
        };
        self.cursor.has_more = has_more;
        self.cursor.current_page = self.cursor.current_page + 1;
        out
    }
}

} // verus!
