//! Pagination of filtered results: page-window resolution with documented
//! defaults, and application of the window to a result sequence alongside a
//! total count taken before the window.

use vstd::prelude::*;

verus! {

/// The page requested when none is supplied.
pub const DEFAULT_PAGE: i64 = 1;

/// The page size used when none is supplied.
pub const DEFAULT_PER_PAGE: i64 = 10;

/// A resolved pagination window: the 1-based page and the page size.
#[derive(Debug, Clone, Copy, PartialEq, Eq, Structural)]
pub struct Paging {
    pub page: i64,
    pub per_page: i64,
}

/// The first row index of the page window over `total` rows.
pub open spec fn window_lo(total: int, page: int, per_page: int) -> int {
    let offset = (page - 1) * per_page;
    if offset <= total {
        offset
    } else {
        total
    }
}

/// One past the last row index of the page window over `total` rows.
pub open spec fn window_hi(total: int, page: int, per_page: int) -> int {
    let end = (page - 1) * per_page + per_page;
    if end <= total {
        end
    } else {
        total
    }
}

/// Resolves the optional page and page size of a request, falling back to
/// the documented defaults — never failing — when either is absent.
pub fn resolve_paging(page: Option<i64>, per_page: Option<i64>) -> (p: Paging)
    ensures
        p.page == (match page {
            Some(n) => n,
            None => DEFAULT_PAGE,
        }),
        p.per_page == (match per_page {
            Some(n) => n,
            None => DEFAULT_PER_PAGE,
        }),
{
    Paging {
        page: match page {
            Some(n) => n,
            None => DEFAULT_PAGE,
        },
        per_page: match per_page {
            Some(n) => n,
            None => DEFAULT_PER_PAGE,
        },
    }
}

/// Applies a resolved page window to the rows a filtered query produced,
/// returning the rows of the requested page together with the total count of
/// matching rows — the count is taken before the window and is unaffected by
/// it.
pub fn page_window<R>(rows: Vec<R>, paging: Paging) -> (r: (Vec<R>, i64))
    requires
        1 <= paging.page,
        0 <= paging.per_page,
        (paging.page - 1) * paging.per_page + paging.per_page <= i64::MAX,
        rows.len() <= i64::MAX,
    ensures
        r.1 == rows.len(),
        r.0@ == rows@.subrange(
            window_lo(rows.len() as int, paging.page as int, paging.per_page as int),
            window_hi(rows.len() as int, paging.page as int, paging.per_page as int),
        ),
{
    proof {
        assert((paging.page - 1) * paging.per_page >= 0) by (nonlinear_arith)
            requires
                1 <= paging.page,
                0 <= paging.per_page,
        ;
    }
    let total = rows.len() as i64;
    let offset = (paging.page - 1) * paging.per_page;
    let end = offset + paging.per_page;
    let lo = if offset >= total {
        total
    } else {
        offset
    };
    let hi = if end >= total {
        total
    } else {
        end
    };
    let mut rows = rows;
    let ghost rows0 = rows@;
    let start = lo as usize;
    let count = (hi - lo) as usize;
    proof {
        assert(lo as int == window_lo(rows0.len() as int, paging.page as int,
            paging.per_page as int));
        assert(hi as int == window_hi(rows0.len() as int, paging.page as int,
            paging.per_page as int));
        assert(0 <= lo <= hi <= total);
        assert(start as int == lo as int);
        assert(count as int == hi - lo);
    }
    let mut window = rows.split_off(start);
    window.truncate(count);
    proof {
        assert(window@ =~= rows0.subrange(
            window_lo(rows0.len() as int, paging.page as int, paging.per_page as int),
            window_hi(rows0.len() as int, paging.page as int, paging.per_page as int),
        ));
    }
    (window, total)
}

/// Paginates the rows a filtered query produced: resolves the optional page
/// and page size to the documented defaults, applies the window, and returns
/// the page's rows with the total count of matching rows.
pub fn paginate<R>(rows: Vec<R>, page: Option<i64>, per_page: Option<i64>) -> (r: (Vec<R>, i64))
    requires
        (match page {
            Some(n) => 1 <= n,
            None => true,
        }),
        (match per_page {
            Some(n) => 0 <= n,
            None => true,
        }),
        (match (page, per_page) {
            (Some(p), Some(n)) => (p - 1) * n + n <= i64::MAX,
            (Some(p), None) => (p - 1) * DEFAULT_PER_PAGE + DEFAULT_PER_PAGE <= i64::MAX,
            (None, Some(n)) => (DEFAULT_PAGE - 1) * n + n <= i64::MAX,
            (None, None) => true,
        }),
        rows.len() <= i64::MAX,
    ensures
        ({
            let paging = Paging {
                page: match page {
                    Some(n) => n,
                    None => DEFAULT_PAGE,
                },
                per_page: match per_page {
                    Some(n) => n,
                    None => DEFAULT_PER_PAGE,
                },
            };
            &&& r.1 == rows.len()
            &&& r.0@ == rows@.subrange(
                window_lo(rows.len() as int, paging.page as int, paging.per_page as int),
                window_hi(rows.len() as int, paging.page as int, paging.per_page as int),
            )
        }),
{
    let paging = resolve_paging(page, per_page);
    page_window(rows, paging)
}

} // verus!
