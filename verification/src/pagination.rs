//! Pagination arithmetic: normalizing page parameters and computing offsets
//! and page counts.

use vstd::prelude::*;
use vstd::arithmetic::div_mod::{
    lemma_fundamental_div_mod, lemma_mod_division_less_than_divisor,
};

verus! {

pub const DEFAULT_PAGE_SIZE: i64 = 20;

pub const MAX_PAGE_SIZE: i64 = 100;

pub const DEFAULT_PAGE: i64 = 1;

/// The page number actually used: the requested one, the default when none
/// was requested, and never below 1.
pub open spec fn spec_normalized_page(page: Option<i64>) -> int {
    let p = match page {
        Some(p) => p as int,
        None => DEFAULT_PAGE as int,
    };
    if p < 1 {
        1
    } else {
        p
    }
}

/// The page size actually used: the requested one, the default when none was
/// requested, capped at the maximum and never below 1.
pub open spec fn spec_normalized_per_page(per_page: Option<i64>) -> int {
    let p = match per_page {
        Some(p) => p as int,
        None => DEFAULT_PAGE_SIZE as int,
    };
    let capped = if p > MAX_PAGE_SIZE as int {
        MAX_PAGE_SIZE as int
    } else {
        p
    };
    if capped < 1 {
        1
    } else {
        capped
    }
}

/// Normalize pagination parameters.
pub fn normalize_pagination(page: Option<i64>, per_page: Option<i64>) -> (r: (i64, i64))
    ensures
        r.0 == spec_normalized_page(page),
        r.1 == spec_normalized_per_page(per_page),
        1 <= r.0,
        1 <= r.1 <= MAX_PAGE_SIZE,
{
    let p = match page {
        Some(p) => p,
        None => DEFAULT_PAGE,
    };
    let p = if p < 1 {
        1
    } else {
        p
    };
    let s = match per_page {
        Some(s) => s,
        None => DEFAULT_PAGE_SIZE,
    };
    let s = if s > MAX_PAGE_SIZE {
        MAX_PAGE_SIZE
    } else {
        s
    };
    let s = if s < 1 {
        1
    } else {
        s
    };
    (p, s)
}

/// Calculate offset for database queries.
pub fn calculate_offset(page: i64, per_page: i64) -> (offset: i64)
    requires
        1 <= page,
        1 <= per_page,
        (page - 1) * per_page <= i64::MAX,
    ensures
        offset == (page - 1) * per_page,
{
    proof {
        assert((page - 1) * per_page >= 0) by (nonlinear_arith)
            requires
                page >= 1,
                per_page >= 1,
        ;
    }
    (page - 1) * per_page
}

/// Page selector of a list request.
#[derive(Clone, Copy, Debug)]
pub struct PaginationQuery {
    pub page: Option<i64>,
    pub per_page: Option<i64>,
}

/// The pagination block of a list response.
#[derive(Clone, Copy, Debug)]
pub struct PaginationInfo {
    pub page: i64,
    pub per_page: i64,
    pub total: i64,
    pub pages: i64,
}

impl PaginationInfo {
    /// Pagination metadata for a page of a listing: the page count is the
    /// least number of pages of `per_page` items that covers `total` items.
    pub fn new(page: i64, per_page: i64, total: i64) -> (r: PaginationInfo)
        requires
            1 <= per_page,
            0 <= total,
            total + per_page <= i64::MAX,
        ensures
            r.page == page,
            r.per_page == per_page,
            r.total == total,
            r.pages * per_page >= total,
            (r.pages - 1) * per_page < total,
    {
        let pages = (total + per_page - 1) / per_page;
        proof {
            lemma_fundamental_div_mod(total + per_page - 1, per_page as int);
            lemma_mod_division_less_than_divisor(total + per_page - 1, per_page as int);
            assert((per_page as int) * ((total + per_page - 1) / (per_page as int)) == (
            pages as int) * (per_page as int)) by (nonlinear_arith)
                requires
                    pages as int == (total + per_page - 1) / (per_page as int),
            ;
            assert((pages as int - 1) * (per_page as int) == (pages as int) * (per_page as int)
                - per_page) by (nonlinear_arith);
        }
        PaginationInfo { page, per_page, total, pages }
    }
}

} // verus!
