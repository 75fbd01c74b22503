//! Page arithmetic for the record list.
use vstd::prelude::*;

verus! {

/// The page size used where none, or one below 1, is asked for.
pub const DEFAULT_PAGE_SIZE: i64 = 10;

/// The page and page size a caller asks for; either may be left out.
#[derive(Clone, Copy, Debug, PartialEq, Eq, Structural)]
pub struct PaginationParams {
    pub page: Option<i64>,
    pub page_size: Option<i64>,
}

/// Where a page of the list lies, and how many pages there are.
#[derive(Clone, Copy, Debug, PartialEq, Eq, Structural)]
pub struct PageWindow {
    pub page: i64,
    pub page_size: i64,
    /// How many records come before the page.
    pub offset: i64,
    pub total_pages: i64,
    /// Whether rows must be fetched at all: not where the store is empty.
    pub fetch_rows: bool,
}

/// The page number in effect: the one asked for, or 1 where it is absent or
/// below 1.
pub open spec fn effective_page(page: Option<i64>) -> int {
    match page {
        Some(p) => if p >= 1 { p as int } else { 1 },
        None => 1,
    }
}

/// The page size in effect: the one asked for, or the default where it is
/// absent or below 1.
pub open spec fn effective_page_size(page_size: Option<i64>) -> int {
    match page_size {
        Some(s) => if s >= 1 { s as int } else { DEFAULT_PAGE_SIZE as int },
        None => DEFAULT_PAGE_SIZE as int,
    }
}

/// How many records precede the requested page.
pub open spec fn page_offset(params: PaginationParams) -> int {
    (effective_page(params.page) - 1) * effective_page_size(params.page_size)
}

/// The smallest number of pages of `size` records that hold `total` records.
pub open spec fn pages_for(total: int, size: int) -> int {
    (total + size - 1) / size
}

/// Whether the offset of the requested page fits in an `i64`.
pub open spec fn window_fits(params: PaginationParams) -> bool {
    page_offset(params) <= i64::MAX
}

/// `w` is the window of the requested page over `total` records.
pub open spec fn window_of(total: int, params: PaginationParams, w: PageWindow) -> bool {
    &&& w.page == effective_page(params.page)
    &&& w.page_size == effective_page_size(params.page_size)
    &&& w.offset == page_offset(params)
    &&& w.total_pages == pages_for(total, w.page_size as int)
    &&& w.fetch_rows == (total > 0)
}

fn effective_page_of(page: Option<i64>) -> (r: i64)
    ensures
        r == effective_page(page),
        r >= 1,
{
    match page {
        Some(p) => if p >= 1 { p } else { 1 },
        None => 1,
    }
}

fn effective_page_size_of(page_size: Option<i64>) -> (r: i64)
    ensures
        r == effective_page_size(page_size),
        r >= 1,
{
    match page_size {
        Some(s) => if s >= 1 { s } else { DEFAULT_PAGE_SIZE },
        None => DEFAULT_PAGE_SIZE,
    }
}

/// Tells whether `compute_page` can take these parameters: whether the
/// offset of the requested page fits in an `i64`.
pub fn window_fits_of(params: &PaginationParams) -> (r: bool)
    ensures
        r == window_fits(*params),
{
    let page = effective_page_of(params.page);
    let size = effective_page_size_of(params.page_size);
    let limit: i64 = i64::MAX / size;
    proof {
        let p = page as int - 1;
        let s = size as int;
        let m = i64::MAX as int;
        assert(p <= m / s ==> p * s <= m) by (nonlinear_arith)
            requires s >= 1, p >= 0;
        assert(p > m / s ==> p * s > m) by (nonlinear_arith)
            requires s >= 1, p >= 0;
    }
    page - 1 <= limit
}

/// The window of the requested page over `total_items` records. The page is
/// at least 1, the page size at least 1 (the default where none or one below
/// 1 is asked for), the offset is `(page - 1) * page_size`, and the page
/// count is `total_items / page_size` rounded up. A page past the last is no
/// error: its window simply holds no records. Where there are no records the
/// page count is 0 and no rows are to be fetched.
pub fn compute_page(total_items: i64, params: &PaginationParams) -> (r: PageWindow)
    requires
        total_items >= 0,
        window_fits(*params),
    ensures
        window_of(total_items as int, *params, r),
        total_items == 0 ==> r.total_pages == 0,
{
    let page = effective_page_of(params.page);
    let page_size = effective_page_size_of(params.page_size);
    let offset = (page - 1) * page_size;
    let whole = total_items / page_size;
    proof {
        let t = total_items as int;
        let s = page_size as int;
        assert(t % s != 0 ==> t / s < i64::MAX) by (nonlinear_arith)
            requires t >= 0, s >= 1, t <= i64::MAX;
        assert(t == 0 ==> t / s == 0 && t % s == 0) by (nonlinear_arith)
            requires s >= 1;
    }
    let total_pages = if total_items % page_size == 0 { whole } else { whole + 1 };
    proof {
        let t = total_items as int;
        let s = page_size as int;
        assert(t % s == 0 ==> (t + s - 1) / s == t / s) by (nonlinear_arith)
            requires t >= 0, s >= 1;
        assert(t % s != 0 ==> (t + s - 1) / s == t / s + 1) by (nonlinear_arith)
            requires t >= 0, s >= 1;
    }
    PageWindow { page, page_size, offset, total_pages, fetch_rows: total_items > 0 }
}

} // verus!
