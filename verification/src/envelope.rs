//! The pagination block of the response envelope. Counts that can exceed the JSON-safe integer
//! range travel as decimal strings; the others are 32-bit numbers, absent when they do not fit.
use vstd::prelude::*;

use crate::text::{signed_decimal_string, signed_decimal_text};

verus! {

/// How a collection is paginated.
#[derive(Clone, Copy, Debug, PartialEq, Eq, Structural)]
pub enum PageMode {
    /// By page number and page size.
    Offset,
    /// By an opaque cursor.
    Cursor,
}

/// The page description a collection response carries.
#[derive(Clone, Debug, PartialEq, Eq)]
pub struct PageInfo {
    pub mode: PageMode,
    pub page: Option<i32>,
    pub page_size: Option<i32>,
    pub total_items: Option<String>,
    pub total_pages: Option<i32>,
    pub next_cursor: Option<String>,
    pub has_more: Option<bool>,
}

/// `x` as a 32-bit number, when it fits.
pub open spec fn fits_i32(x: int) -> Option<i32> {
    if i32::MIN <= x <= i32::MAX {
        Some(x as i32)
    } else {
        None
    }
}

/// Converts to 32 bits when the value fits.
pub fn to_i32(x: i64) -> (r: Option<i32>)
    ensures
        r == fits_i32(x as int),
{
    if -2147483648i64 <= x && x <= 2147483647i64 {
        Some(x as i32)
    } else {
        None
    }
}

/// Division rounding toward zero, as integer `/` does.
pub open spec fn div_toward_zero(a: int, b: int) -> int {
    let q = (if a < 0 {
        -a
    } else {
        a
    }) / (if b < 0 {
        -b
    } else {
        b
    });
    if (a < 0) != (b < 0) {
        -q
    } else {
        q
    }
}

/// The number of pages `total_items` records fill at `page_size` per page: none for an empty set,
/// else `(total_items + page_size - 1) / page_size`, rounded toward zero.
pub open spec fn page_count(page_size: int, total_items: int) -> int {
    if total_items == 0 {
        0
    } else {
        div_toward_zero(total_items + page_size - 1, page_size)
    }
}

/// The arithmetic of [`page_count`] stays within 64 bits and never divides by zero.
pub open spec fn page_count_defined(page_size: i64, total_items: i64) -> bool {
    total_items == 0 || (page_size != 0 && i64::MIN <= total_items + page_size - 1 <= i64::MAX
        && i64::MIN <= page_count(page_size as int, total_items as int) <= i64::MAX)
}

/// The page block of one offset page: the page and its size, the whole set's size as a decimal
/// string, the page count, and whether a later page exists.
pub fn offset_page_info(page: i64, page_size: i64, total_items: i64) -> (r: PageInfo)
    requires
        page_count_defined(page_size, total_items),
    ensures
        r.mode == PageMode::Offset,
        r.page == fits_i32(page as int),
        r.page_size == fits_i32(page_size as int),
        r.total_items matches Some(t) && t@ == signed_decimal_text(total_items as int),
        r.total_pages == fits_i32(page_count(page_size as int, total_items as int)),
        r.next_cursor is None,
        r.has_more == Some(page < page_count(page_size as int, total_items as int)),
{
    let total_pages: i64 = if total_items == 0 {
        0
    } else {
        let a: i128 = total_items as i128 + page_size as i128 - 1;
        let b: i128 = page_size as i128;
        let magnitude_a: i128 = if a < 0 {
            -a
        } else {
            a
        };
        let magnitude_b: i128 = if b < 0 {
            -b
        } else {
            b
        };
        let q: i128 = magnitude_a / magnitude_b;
        let signed: i128 = if (a < 0) != (b < 0) {
            -q
        } else {
            q
        };
        signed as i64
    };
    PageInfo {
        mode: PageMode::Offset,
        page: to_i32(page),
        page_size: to_i32(page_size),
        total_items: Some(signed_decimal_string(total_items)),
        total_pages: to_i32(total_pages),
        next_cursor: None,
        has_more: Some(page < total_pages),
    }
}

/// The page block of an unpaginated list: everything on page one of one.
pub fn single_page_info(item_count: usize) -> (r: PageInfo)
    ensures
        r.mode == PageMode::Offset,
        r.page == Some(1i32),
        r.page_size == Some(item_count as i32),
        r.total_items matches Some(t) && t@ == signed_decimal_text(item_count as int),
        r.total_pages == Some(1i32),
        r.next_cursor is None,
        r.has_more == Some(false),
{
    let total = crate::text::string_of(&crate::text::decimal_chars(item_count as u128));
    proof {
        assert(signed_decimal_text(item_count as int) == crate::text::decimal_text(item_count as nat));
    }
    PageInfo {
        mode: PageMode::Offset,
        page: Some(1),
        page_size: Some(#[verifier::truncate] (item_count as i32)),
        total_items: Some(total),
        total_pages: Some(1),
        next_cursor: None,
        has_more: Some(false),
    }
}

} // verus!
