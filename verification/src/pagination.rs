//! The paging fields of list answers.

use vstd::prelude::*;

verus! {

/// The number of pages of `per_page` items needed for `total` items, as the
/// list endpoints report it: the quotient rounded up for a positive total
/// and page size; for a positive total and a page size of zero the largest
/// `usize`; zero otherwise; never more than the largest `usize`.
pub open spec fn page_count(total: int, per_page: int) -> int {
    if total <= 0 {
        0
    } else if per_page == 0 {
        usize::MAX as int
    } else {
        let q = (total + per_page - 1) / per_page;
        if q > usize::MAX {
            usize::MAX as int
        } else {
            q
        }
    }
}

/// The number of pages for `total` items at `per_page` items a page.
pub fn page_counts(total: i64, per_page: usize) -> (r: usize)
    ensures
        r as int == page_count(total as int, per_page as int),
{
    if total <= 0 {
        return 0;
    }
    if per_page == 0 {
        return usize::MAX;
    }
    let t = total as u128;
    let p = per_page as u128;
    let q = (t + p - 1) / p;
    if q > usize::MAX as u128 {
        usize::MAX
    } else {
        q as usize
    }
}

/// The paging fields of a list answer: the page asked for, the page size
/// and the page count; all zero unless both a page and a page size were
/// given.
pub struct PageInfo {
    pub page: usize,
    pub per_page: usize,
    pub page_counts: usize,
}

/// The paging fields for `total` matching rows.
pub fn page_info(total: i64, page: Option<usize>, per_page: Option<usize>) -> (r: PageInfo)
    ensures
        match (page, per_page) {
            (Some(p), Some(n)) => r.page == p && r.per_page == n && r.page_counts as int
                == page_count(total as int, n as int),
            _ => r.page == 0 && r.per_page == 0 && r.page_counts == 0,
        },
{
    match (page, per_page) {
        (Some(p), Some(n)) => PageInfo { page: p, per_page: n, page_counts: page_counts(total, n) },
        _ => PageInfo { page: 0, per_page: 0, page_counts: 0 },
    }
}

/// With a positive page size, the page count covers every item and no page
/// is wasted: `(count - 1) * size < total <= count * size`, whenever the
/// count does not saturate.
pub proof fn law_page_count_covers(total: int, per_page: int)
    requires
        total > 0,
        per_page > 0,
        page_count(total, per_page) < usize::MAX,
    ensures
        (page_count(total, per_page) - 1) * per_page < total,
        total <= page_count(total, per_page) * per_page,
{
    let q = (total + per_page - 1) / per_page;
    assert(q * per_page <= total + per_page - 1) by (nonlinear_arith)
        requires
            q == (total + per_page - 1) / per_page,
            per_page > 0,
    ;
    assert(total + per_page - 1 < (q + 1) * per_page) by (nonlinear_arith)
        requires
            q == (total + per_page - 1) / per_page,
            per_page > 0,
    ;
    assert((q - 1) * per_page == q * per_page - per_page) by (nonlinear_arith);
    assert((q + 1) * per_page == q * per_page + per_page) by (nonlinear_arith);
}

} // verus!
