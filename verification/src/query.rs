//! Decisions behind the statistics queries: the time window, trend buckets,
//! paging and the model search.

use vstd::prelude::*;
use crate::text::{lower_seq, push_str, to_ascii_lower, trim, trim_seq};

verus! {

/// Version of the cache layout; a cache written under another version is cleared.
pub const SESSION_USAGE_SCHEMA_VERSION: i64 = 3;

/// How many events a page may hold at most.
pub const MAX_PAGE_SIZE: u64 = 100;

/// Length of a day in milliseconds; a window no longer than this is shown by the hour.
pub const DAY_MS: i64 = 86400000;

/// Refuses a summary window that ends before it starts.
pub fn check_summary_range(start_at: i64, end_at: i64) -> (r: Result<(), String>)
    ensures
        r is Ok <==> start_at <= end_at,
        r matches Err(message) ==> message@ == "Codex 会话统计结束时间不能早于开始时间"@,
{
    if end_at < start_at {
        Err("Codex 会话统计结束时间不能早于开始时间".to_owned())
    } else {
        Ok(())
    }
}

/// Whether a window is short enough (at most a day) to be bucketed by hour.
pub open spec fn is_hourly(start_at: i64, end_at: i64) -> bool {
    end_at - start_at <= DAY_MS
}

/// The `strftime` format that names a trend bucket: the hour for windows of
/// at most a day, the date otherwise.
pub fn trend_bucket_format(start_at: i64, end_at: i64) -> (r: &'static str)
    ensures
        r@ == if is_hourly(start_at, end_at) { "%Y-%m-%d %H:00"@ } else { "%Y-%m-%d"@ },
        end_at - start_at <= 86_400_000 ==> r@ == "%Y-%m-%d %H:00"@,
        end_at - start_at > 86_400_000 ==> r@ == "%Y-%m-%d"@,
{
    let span = (end_at as i128) - (start_at as i128);
    if span <= DAY_MS as i128 {
        "%Y-%m-%d %H:00"
    } else {
        "%Y-%m-%d"
    }
}

/// Which page of events a request gets, and where it starts.
#[derive(PartialEq, Eq, Structural, Debug, Clone, Copy)]
pub struct PageWindow {
    pub page: u64,
    pub page_size: u64,
    pub total_pages: u64,
    pub offset: u64,
}

/// `page_size` held between 1 and 100.
pub open spec fn clamp_page_size(page_size: u64) -> u64 {
    if page_size < 1 { 1 } else if page_size > MAX_PAGE_SIZE { MAX_PAGE_SIZE } else { page_size }
}

/// Pages needed for `total` events, at least one.
pub open spec fn pages_for(total: u64, page_size: u64) -> u64 {
    let pages = (total + page_size - 1) / (page_size as int);
    if pages < 1 { 1 } else { pages as u64 }
}

/// The page actually served: the requested one (at least 1), but no further
/// than the last page.
pub open spec fn spec_page_window(page: u64, page_size: u64, total: u64) -> PageWindow {
    let size = clamp_page_size(page_size);
    let pages = pages_for(total, size);
    let requested = if page < 1 { 1 } else { page };
    let served = if requested > pages { pages } else { requested };
    PageWindow { page: served, page_size: size, total_pages: pages, offset: ((served - 1) * size) as u64 }
}

/// Works out the page of events to return for a request of `page` pages of
/// `page_size` events, when `total` events match.
pub fn page_window(page: u64, page_size: u64, total: u64) -> (r: PageWindow)
    ensures
        r == spec_page_window(page, page_size, total),
        1 <= r.page <= r.total_pages,
        1 <= r.page_size <= MAX_PAGE_SIZE,
        total > 0 ==> r.offset < total,
        r.offset as int + r.page_size >= total || r.page < r.total_pages || total == 0,
        r.page_size == (if page_size < 1 { 1 } else if page_size > 100 { 100 } else { page_size }),
        total <= r.total_pages * r.page_size,
        r.total_pages == 1 || (r.total_pages - 1) * r.page_size < total,
        r.page == (if page < 1 { 1 } else if page > r.total_pages { r.total_pages } else { page }),
        r.offset == (r.page - 1) * r.page_size,
{
    let size = if page_size < 1 {
        1
    } else if page_size > MAX_PAGE_SIZE {
        MAX_PAGE_SIZE
    } else {
        page_size
    };
    let quotient = total / size;
    assert(total % size != 0 ==> quotient < u64::MAX) by (nonlinear_arith)
        requires
            1 <= size,
            quotient == total / size,
            total <= u64::MAX,
    ;
    let pages_raw = if total % size == 0 { quotient } else { quotient + 1 };
    assert(pages_raw == (total + size - 1) / (size as int)) by (nonlinear_arith)
        requires
            1 <= size,
            quotient == total / size,
            pages_raw == if total % size == 0 { quotient } else { (quotient + 1) as u64 },
    ;
    let pages = if pages_raw < 1 { 1 } else { pages_raw };
    let requested = if page < 1 { 1 } else { page };
    let served = if requested > pages { pages } else { requested };
    assert((served - 1) * size <= total) by (nonlinear_arith)
        requires
            1 <= served <= pages,
            1 <= size,
            pages_raw == (total + size - 1) / (size as int),
            pages == if pages_raw < 1 { 1 } else { pages_raw },
    ;
    assert(total > 0 ==> (served - 1) * size < total) by (nonlinear_arith)
        requires
            1 <= served <= pages,
            1 <= size,
            pages_raw == (total + size - 1) / (size as int),
            pages == if pages_raw < 1 { 1 } else { pages_raw },
    ;
    assert((served - 1) * size + size >= total || served < pages) by (nonlinear_arith)
        requires
            1 <= served <= pages,
            1 <= size,
            pages_raw == (total + size - 1) / (size as int),
            pages == if pages_raw < 1 { 1 } else { pages_raw },
    ;
    assert(total <= pages * size && (pages == 1 || (pages - 1) * size < total)) by (nonlinear_arith)
        requires
            1 <= size,
            pages_raw == (total + size - 1) / (size as int),
            pages == if pages_raw < 1 { 1 } else { pages_raw },
    ;
    let offset = (served - 1) * size;
    PageWindow { page: served, page_size: size, total_pages: pages, offset }
}

/// The model search of an event listing: the query trimmed and
/// ASCII-lowercased (empty when absent), and its SQL `LIKE` pattern.
pub open spec fn spec_model_query(query: Option<Seq<char>>) -> Seq<char> {
    match query {
        Some(q) => lower_seq(trim_seq(q)),
        None => seq![],
    }
}

/// Normalizes the model search and makes the `%query%` pattern for it.
pub fn model_filter(query: Option<&str>) -> (r: (String, String))
    ensures
        r.0@ == spec_model_query(match query { Some(q) => Some(q@), None => None }),
        r.1@ == seq!['%'] + r.0@ + seq!['%'],
{
    let normalized = match query {
        Some(q) => {
            let t = trim(q);
            to_ascii_lower(t.as_str())
        },
        None => {
            let e = String::new();
            assert(lower_seq(e@) =~= e@);
            e
        },
    };
    let mut pattern = String::new();
    pattern.push('%');
    push_str(&mut pattern, normalized.as_str());
    pattern.push('%');
    (normalized, pattern)
}

} // verus!
