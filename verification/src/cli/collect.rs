//! Walking the pages of recent scrobbles for the `delete` and `show` commands: which page to read
//! next, and when to stop.

use vstd::prelude::*;

verus! {

/// A walk over consecutive pages: it reads pages `next..=last`, and stops after a page that could
/// not be read or held nothing, or once `needed` items (when given) have been collected.
#[derive(Debug, Clone, Copy, PartialEq, Eq)]
pub struct PageWalk {
    pub next: u64,
    pub last: u64,
    pub needed: Option<u64>,
    pub collected: u64,
    pub stopped: bool,
}

/// Whether the walk reads another page.
pub open spec fn walk_goes_on(w: PageWalk) -> bool {
    !w.stopped && w.next <= w.last && match w.needed {
        Some(n) => w.collected < n,
        None => true,
    }
}

impl PageWalk {
    /// A walk over the pages `first..=last`.
    pub fn pages(first: u64, last: u64) -> (res: Self)
        ensures
            res == (PageWalk { next: first, last, needed: None, collected: 0, stopped: false }),
    {
        PageWalk { next: first, last, needed: None, collected: 0, stopped: false }
    }

    /// A walk from page 1 that stops once `needed` items have been collected.
    pub fn until_collected(needed: u64) -> (res: Self)
        ensures
            res == (PageWalk { next: 1, last: u64::MAX, needed: Some(needed), collected: 0, stopped: false }),
    {
        PageWalk { next: 1, last: u64::MAX, needed: Some(needed), collected: 0, stopped: false }
    }

    /// The page to read next, or `None` when the walk is over.
    pub fn next_page(&self) -> (res: Option<u64>)
        ensures
            res == if walk_goes_on(*self) { Some(self.next) } else { None::<u64> },
    {
        let wanted = match self.needed {
            Some(n) => self.collected < n,
            None => true,
        };
        if !self.stopped && self.next <= self.last && wanted {
            Some(self.next)
        } else {
            None
        }
    }

    /// Records the page just read: how many items it held, or `None` when it could not be read.
    /// An empty or unreadable page ends the walk; the count saturates at `u64::MAX`.
    pub fn record_page(&mut self, items: Option<u64>)
        requires
            walk_goes_on(*old(self)),
        ensures
            final(self).last == old(self).last,
            final(self).needed == old(self).needed,
            final(self).next == old(self).next + 1 || (old(self).next == u64::MAX && final(self).stopped),
            final(self).stopped == (old(self).stopped || items matches None || items == Some(0u64) || old(self).next == u64::MAX),
            final(self).collected == match items {
                Some(k) => if old(self).collected + k > u64::MAX { u64::MAX as int } else { old(self).collected + k },
                None => old(self).collected as int,
            },
    {
        match items {
            Some(k) => {
                self.collected = if k > u64::MAX - self.collected { u64::MAX } else { self.collected + k };
                if k == 0 {
                    self.stopped = true;
                }
            },
            None => {
                self.stopped = true;
            },
        }
        if self.next == u64::MAX {
            self.stopped = true;
        } else {
            self.next = self.next + 1;
        }
    }
}

} // verus!
