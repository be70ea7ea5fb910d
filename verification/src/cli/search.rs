//! The `search` command: where to start and which results to show.

use vstd::prelude::*;

verus! {

/// Search results come in pages of 30.
pub open spec fn items_per_page() -> usize {
    30
}

/// The page to start at to reach result number `offset` (counting from 0).
pub fn starting_page(offset: usize) -> (res: usize)
    ensures
        res == if offset > 0 { offset / items_per_page() + 1 } else { 1 },
{
    if offset > 0 { offset / 30 + 1 } else { 1 }
}

/// How many results of the starting page come before result number `offset`.
pub fn within_page_offset(offset: usize) -> (res: usize)
    ensures
        res == offset % items_per_page(),
{
    offset % 30
}

/// What to do with the next result.
#[derive(Debug, Clone, Copy, PartialEq, Eq)]
pub enum SearchStep {
    /// Skip it: it comes before the offset.
    Skip,
    /// Show it as result number `index`; stop afterwards when the limit is reached.
    Show { index: usize, stop_after: bool },
}

/// How far a search has gone.
#[derive(Debug, Clone, Copy, PartialEq, Eq)]
pub struct SearchProgress {
    pub offset: usize,
    pub limit: usize,
    pub total_count: usize,
    pub displayed_count: usize,
}

impl SearchProgress {
    /// A search that shows results from number `offset` on, at most `limit` of them (0: no limit).
    pub fn new(offset: usize, limit: usize) -> (res: Self)
        ensures
            res == (SearchProgress { offset, limit, total_count: 0, displayed_count: 0 }),
    {
        SearchProgress { offset, limit, total_count: 0, displayed_count: 0 }
    }

    /// Takes the next result of the listing (which starts at the starting page).
    pub fn on_result(&mut self) -> (res: SearchStep)
        requires
            old(self).total_count < usize::MAX,
            old(self).offset + old(self).displayed_count + 1 <= usize::MAX,
        ensures
            final(self).offset == old(self).offset,
            final(self).limit == old(self).limit,
            final(self).total_count == old(self).total_count + 1,
            if final(self).total_count <= old(self).offset % items_per_page() {
                res == SearchStep::Skip && final(self).displayed_count == old(self).displayed_count
            } else {
                &&& final(self).displayed_count == old(self).displayed_count + 1
                &&& res == (SearchStep::Show {
                    index: (old(self).offset + final(self).displayed_count) as usize,
                    stop_after: old(self).limit > 0 && final(self).displayed_count >= old(self).limit,
                })
            },
    {
        self.total_count = self.total_count + 1;
        if self.total_count <= self.offset % 30 {
            return SearchStep::Skip;
        }
        self.displayed_count = self.displayed_count + 1;
        SearchStep::Show {
            index: self.offset + self.displayed_count,
            stop_after: self.limit > 0 && self.displayed_count >= self.limit,
        }
    }

    /// Whether nothing was shown, so that "no results" is reported instead of a summary.
    pub fn no_results(&self) -> (res: bool)
        ensures
            res == (self.displayed_count == 0),
    {
        self.displayed_count == 0
    }
}

/// Whether a listing stops after `count` items under `limit` (0: no limit).
pub fn reached_limit(count: usize, limit: usize) -> (res: bool)
    ensures
        res == (limit > 0 && count >= limit),
{
    limit > 0 && count >= limit
}

} // verus!
