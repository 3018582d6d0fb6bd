//! Page-number pagination: which slice of a sequence a page request selects.
use vstd::prelude::*;

verus! {

/// The largest number of records that one page returns.
pub const MAX_PAGE_LIMIT: u32 = 50;

/// A page request: pages are numbered from 1 and hold up to `limit` records.
#[derive(Debug, Clone, Copy, PartialEq, Eq, Structural)]
pub struct GetPaginated {
    pub page: u32,
    pub limit: u32,
}

impl Default for GetPaginated {
    fn default() -> (r: GetPaginated)
        ensures
            r.page == 1,
            r.limit == 20,
    {
        GetPaginated { page: 1, limit: 20 }
    }
}

/// How many records the page holds at most: the limit, clamped to
/// `MAX_PAGE_LIMIT`.
pub open spec fn page_take(p: GetPaginated) -> int {
    if p.limit <= MAX_PAGE_LIMIT {
        p.limit as int
    } else {
        MAX_PAGE_LIMIT as int
    }
}

/// How many records come before the requested page: `(page - 1)` pages of
/// the clamped size, with page 0 read as page 1.
pub open spec fn page_skip(p: GetPaginated) -> int {
    if p.page == 0 {
        0
    } else {
        (p.page - 1) * page_take(p)
    }
}

/// The records of `s` from position `skip` on, at most `take` of them.
pub open spec fn page_of<T>(s: Seq<T>, skip: int, take: int) -> Seq<T> {
    let lo = if skip <= s.len() {
        skip
    } else {
        s.len() as int
    };
    let hi = if skip + take <= s.len() {
        skip + take
    } else {
        s.len() as int
    };
    s.subrange(lo, hi)
}

impl GetPaginated {
    /// How many records to skip and how many to take for this page.
    pub fn window(&self) -> (r: (u64, u64))
        ensures
            r.0 == page_skip(*self),
            r.1 == page_take(*self),
    {
        let take: u64 = if self.limit <= MAX_PAGE_LIMIT {
            self.limit as u64
        } else {
            MAX_PAGE_LIMIT as u64
        };
        let skip: u64 = if self.page == 0 {
            0
        } else {
            proof {
                assert((self.page - 1) * take <= u32::MAX * 50) by (nonlinear_arith)
                    requires
                        self.page - 1 <= u32::MAX,
                        take <= 50,
                ;
            }
            (self.page as u64 - 1) * take
        };
        (skip, take)
    }
}

/// The records to skip and to take for an offset request: `offset` (0 when
/// absent) and `limit` (`MAX_PAGE_LIMIT` when absent).
pub fn offset_window(limit: Option<u32>, offset: Option<u32>) -> (r: (u64, u64))
    ensures
        r.0 == (match offset {
            Some(o) => o as int,
            None => 0,
        }),
        r.1 == (match limit {
            Some(l) => l as int,
            None => MAX_PAGE_LIMIT as int,
        }),
{
    let take: u64 = match limit {
        Some(l) => l as u64,
        None => MAX_PAGE_LIMIT as u64,
    };
    let skip: u64 = match offset {
        Some(o) => o as u64,
        None => 0,
    };
    (skip, take)
}

} // verus!
