//! Paging of listings.

use vstd::prelude::*;

use crate::error::AuthError;

verus! {

/// Page shown when none is asked for (pages count from 1).
pub const DEFAULT_PAGE: u64 = 1;

/// Page size used when none is asked for.
pub const DEFAULT_PAGE_SIZE: u64 = 10;

/// Query of a listing request.
pub struct PaginationParams {
    pub page: Option<u64>,
    pub page_size: Option<u64>,
}

/// The slice of a listing that one page covers.
#[derive(Clone, Copy, Debug, PartialEq, Eq, Structural)]
pub struct PageWindow {
    /// Zero-based index of the page.
    pub index: u64,
    /// Position of the first item of the page.
    pub offset: u64,
    /// Largest number of items on the page.
    pub limit: u64,
}

/// Number of pages that `total` items fill at `size` items a page.
pub open spec fn page_count(total: u64, size: u64) -> int
    recommends
        size > 0,
{
    total as int / size as int + if total as int % size as int > 0 {
        1int
    } else {
        0int
    }
}

/// The window of the requested page over `total` items, or `PageOutOfRange`
/// where the page does not exist (page 0, a page size of 0, or a page past
/// the last).
pub open spec fn window_of(params: PaginationParams, total: u64) -> Result<PageWindow, AuthError> {
    let page = match params.page {
        Some(p) => p,
        None => DEFAULT_PAGE,
    };
    let size = match params.page_size {
        Some(s) => s,
        None => DEFAULT_PAGE_SIZE,
    };
    if page == 0 || size == 0 || page > page_count(total, size) {
        Err(AuthError::PageOutOfRange)
    } else {
        Ok(PageWindow { index: (page - 1) as u64, offset: ((page - 1) * size) as u64, limit: size })
    }
}

proof fn lemma_offset_fits(total: u64, size: u64, page: u64)
    requires
        size > 0,
        1 <= page <= page_count(total, size),
    ensures
        (page - 1) * size <= total,
{
    let q = total as int / size as int;
    let m = total as int % size as int;
    assert(total as int == q * size + m && 0 <= m < size) by (nonlinear_arith)
        requires
            size > 0,
            q == total as int / size as int,
            m == total as int % size as int,
    ;
    if m > 0 {
        assert((page - 1) * size <= q * size) by (nonlinear_arith)
            requires
                page - 1 <= q,
                size > 0,
        ;
    } else {
        assert((page - 1) * size <= (q - 1) * size) by (nonlinear_arith)
            requires
                page - 1 <= q - 1,
                size > 0,
        ;
        assert((q - 1) * size == q * size - size) by (nonlinear_arith);
    }
}

proof fn lemma_quotient_below_max(total: u64, size: u64)
    requires
        size > 0,
        total % size > 0,
    ensures
        total / size < u64::MAX,
{
    assert(size >= 2);
    let q = total as int / size as int;
    assert(q * size <= total && q >= 0) by (nonlinear_arith)
        requires
            size > 0,
            total >= 0,
            q == total as int / size as int,
    ;
    assert(q * 2 <= q * size) by (nonlinear_arith)
        requires
            size >= 2,
            q >= 0,
    ;
}

impl PaginationParams {
    /// The window of the requested page over a listing of `total_items`
    /// items; a missing page is the first, a missing size the default one.
    pub fn window(&self, total_items: u64) -> (r: Result<PageWindow, AuthError>)
        ensures
            r == window_of(*self, total_items),
            r matches Ok(w) ==> w.offset <= total_items,
    {
        let page = match self.page {
            Some(p) => p,
            None => DEFAULT_PAGE,
        };
        let size = match self.page_size {
            Some(s) => s,
            None => DEFAULT_PAGE_SIZE,
        };
        if page == 0 || size == 0 {
            return Err(AuthError::PageOutOfRange);
        }
        let pages: u64 = if total_items % size > 0 {
            proof {
                lemma_quotient_below_max(total_items, size);
            }
            total_items / size + 1
        } else {
            total_items / size
        };
        if page > pages {
            return Err(AuthError::PageOutOfRange);
        }
        proof {
            lemma_offset_fits(total_items, size, page);
        }
        Ok(PageWindow { index: page - 1, offset: (page - 1) * size, limit: size })
    }
}

} // verus!
