//! Page arithmetic for listings.
use vstd::prelude::*;

verus! {

/// Fewest items on a page.
pub const MIN_PER_PAGE: u64 = 1;
/// Most items on a page.
pub const MAX_PER_PAGE: u64 = 100;
/// Items on a page when the request names no size.
pub const DEFAULT_PER_PAGE: u64 = 20;

/// `x` brought into `lo..=hi`.
pub open spec fn clamped(x: u64, lo: u64, hi: u64) -> u64 {
    if x < lo {
        lo
    } else if x > hi {
        hi
    } else {
        x
    }
}

/// The number of pages of `per` items that `total` items fill, and at least one.
pub open spec fn page_count(total: u64, per: u64) -> int
    recommends
        per > 0,
{
    let n = total / per + if total % per == 0 {
        0int
    } else {
        1int
    };
    if n < 1 {
        1
    } else {
        n
    }
}

/// One page of a listing.
#[derive(Debug)]
pub struct Items<T> {
    pub items: Vec<T>,
    pub page: u64,
    pub per_page: u64,
    pub total: u64,
    pub total_pages: u64,
}

impl<T> Items<T> {
    /// Page `page` of a listing of `total` items with `per_page` on a page; the page size is
    /// kept within bounds and the page number is at least one.
    pub fn new(items: Vec<T>, page: u64, per_page: u64, total: u64) -> (r: Items<T>)
        ensures
            r.items == items,
            r.page == if page < 1 {
                1
            } else {
                page
            },
            r.per_page == clamped(per_page, MIN_PER_PAGE, MAX_PER_PAGE),
            r.total == total,
            r.total_pages == page_count(total, r.per_page),
    {
        let per = if per_page < MIN_PER_PAGE {
            MIN_PER_PAGE
        } else if per_page > MAX_PER_PAGE {
            MAX_PER_PAGE
        } else {
            per_page
        };
        let whole = total / per;
        let n = if total % per == 0 {
            whole
        } else {
            assert(whole < u64::MAX) by (nonlinear_arith)
                requires
                    whole == total / per,
                    per >= 1,
                    total % per != 0,
                    total <= u64::MAX,
            {
                assert(per != 1);
            }
            whole + 1
        };
        let total_pages = if n < 1 {
            1
        } else {
            n
        };
        Items {
            items,
            page: if page < 1 {
                1
            } else {
                page
            },
            per_page: per,
            total,
            total_pages,
        }
    }
}

/// Page and page size as requested.
#[derive(Debug, Clone, Copy)]
pub struct PaginationParams {
    pub page: Option<u64>,
    pub per_page: Option<u64>,
}

impl PaginationParams {
    /// The page requested, the first by default.
    pub fn page(&self) -> (r: u64)
        ensures
            r == match self.page {
                Some(p) => p,
                None => 1,
            },
    {
        match self.page {
            Some(p) => p,
            None => 1,
        }
    }

    /// The page size requested, within bounds.
    pub fn per_page(&self) -> (r: u64)
        ensures
            r == clamped(
                match self.per_page {
                    Some(p) => p,
                    None => DEFAULT_PER_PAGE,
                },
                MIN_PER_PAGE,
                MAX_PER_PAGE,
            ),
    {
        let p = match self.per_page {
            Some(p) => p,
            None => DEFAULT_PER_PAGE,
        };
        if p < MIN_PER_PAGE {
            MIN_PER_PAGE
        } else if p > MAX_PER_PAGE {
            MAX_PER_PAGE
        } else {
            p
        }
    }
}

/// Query of a post listing: the page, and the id that listed posts must exceed.
#[derive(Debug, Clone, Copy)]
pub struct PostListParams {
    pub pagination: PaginationParams,
    pub post_id: Option<i64>,
}

} // verus!
