//! Pagination arithmetic shared by every paginated listing.
//!
//! A page request is normalized (page floored at 1, page size defaulted and
//! capped), and `create_pagination_info` derives the page count and the
//! 1-based inclusive item range from `(page, page_size, total_items)` alone.

use vstd::prelude::*;

verus! {

/// Page size used when a request does not name one.
pub const DEFAULT_PAGE_SIZE: u32 = 10;

/// Largest page size a request may ask for.
pub const MAX_PAGE_SIZE: u32 = 100;

/// Derived description of one page of a listing: where it sits in the whole
/// result set and which 1-based item indices it covers.
#[derive(Debug, Clone)]
pub struct PaginationInfo {
    pub current_page: u32,
    pub total_pages: u32,
    pub has_prev: bool,
    pub has_next: bool,
    pub start_item: u32,
    pub end_item: u32,
    pub total_items: u64,
}

/// Number of pages needed for `total` items at `size` items per page:
/// one page when empty, otherwise the rounding-up division.
pub open spec fn spec_total_pages(total: int, size: int) -> int {
    if total == 0 {
        1
    } else {
        (total + size - 1) / size
    }
}

/// First 1-based item index shown on `page`, or 0 for an empty result set.
pub open spec fn spec_start_item(page: int, size: int, total: int) -> int {
    if total == 0 {
        0
    } else {
        (page - 1) * size + 1
    }
}

/// Last 1-based item index shown on `page`, or 0 for an empty result set.
pub open spec fn spec_end_item(page: int, size: int, total: int) -> int {
    if total == 0 {
        0
    } else if page * size <= total {
        page * size
    } else {
        total
    }
}

/// Requested page number floored at 1; absent means the first page.
pub fn normalize_page(requested: Option<u32>) -> (page: u32)
    ensures
        page == match requested {
            Some(p) => if p >= 1 { p as int } else { 1 },
            None => 1,
        },
{
    match requested {
        Some(p) => if p >= 1 { p } else { 1 },
        None => 1,
    }
}

/// Requested page size capped at `MAX_PAGE_SIZE`; absent means the default.
pub fn normalize_page_size(requested: Option<u32>) -> (size: u32)
    ensures
        size == match requested {
            Some(s) => if s <= MAX_PAGE_SIZE { s as int } else { MAX_PAGE_SIZE as int },
            None => DEFAULT_PAGE_SIZE as int,
        },
{
    match requested {
        Some(s) => if s <= MAX_PAGE_SIZE { s } else { MAX_PAGE_SIZE },
        None => DEFAULT_PAGE_SIZE,
    }
}

/// Number of items to skip before the requested page begins.
pub fn page_skip(page: u32, page_size: u32) -> (skip: u32)
    requires
        page >= 1,
        (page - 1) * page_size <= u32::MAX,
    ensures
        skip == (page - 1) * page_size,
{
    (page - 1) * page_size
}

/// Pure derivation of the pagination block for one listing request.
///
/// For every `total_items >= 0`, `current_page >= 1` and
/// `1 <= page_size <= MAX_PAGE_SIZE`: the page count is the rounding-up
/// division (one page when empty), `has_prev`/`has_next` compare the page
/// against its neighbours, and the item range is 0..0 exactly when the
/// result set is empty.
pub fn create_pagination_info(current_page: u32, page_size: u32, total_items: u64) -> (info:
    PaginationInfo)
    requires
        current_page >= 1,
        1 <= page_size <= MAX_PAGE_SIZE,
        total_items <= u32::MAX,
        current_page * page_size <= u32::MAX,
    ensures
        info.current_page == current_page,
        info.total_items == total_items,
        info.total_pages == spec_total_pages(total_items as int, page_size as int),
        info.has_prev == (current_page > 1),
        info.has_next == (current_page < info.total_pages),
        info.start_item == spec_start_item(
            current_page as int,
            page_size as int,
            total_items as int,
        ),
        info.end_item == spec_end_item(current_page as int, page_size as int, total_items as int),
        (info.start_item == 0 && info.end_item == 0) <==> total_items == 0,
{
    let total32: u32 = total_items as u32;
    let total_pages: u32 = if total32 == 0 {
        1
    } else {
        let pages64: u64 = (total32 as u64 + page_size as u64 - 1) / (page_size as u64);
        assert(pages64 <= total32) by (nonlinear_arith)
            requires
                1 <= page_size,
                1 <= total32,
                pages64 == (total32 as u64 + page_size as u64 - 1) as int / page_size as int,
        ;
        pages64 as u32
    };

    let has_prev = current_page > 1;
    let has_next = current_page < total_pages;

    let (start_item, end_item): (u32, u32) = if total32 == 0 {
        (0u32, 0u32)
    } else {
        assert((current_page - 1) * page_size + 1 <= current_page * page_size)
            by (nonlinear_arith)
            requires
                1 <= current_page,
                1 <= page_size,
        ;
        let start: u32 = (current_page - 1) * page_size + 1;
        let cap: u32 = current_page * page_size;
        let end: u32 = if cap <= total32 {
            cap
        } else {
            total32
        };
        (start, end)
    };

    PaginationInfo {
        current_page,
        total_pages,
        has_prev,
        has_next,
        start_item,
        end_item,
        total_items,
    }
}

} // verus!
