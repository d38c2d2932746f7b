//! Response envelope and pagination shapes.

use crate::clock::now_micros;
use crate::utils::{
    calculate_total_pages, lemma_pages_at_most_total, total_pages_is_ceiling, total_pages_of,
};
use vstd::prelude::*;

verus! {

/// Uniform wrapper around every result handed to a caller. `timestamp` is in
/// microseconds since the Unix epoch.
#[derive(Debug, PartialEq, Eq)]
pub struct ApiResponse<T> {
    pub success: bool,
    pub data: Option<T>,
    pub message: Option<String>,
    pub timestamp: i64,
}

impl<T> ApiResponse<T> {
    /// The envelope of a success that carries `data`, stamped `timestamp`.
    pub fn success_at(data: T, timestamp: i64) -> (response: Self)
        ensures
            response.success,
            response.data == Some(data),
            response.message is None,
            response.timestamp == timestamp,
    {
        ApiResponse { success: true, data: Some(data), message: None, timestamp }
    }

    /// The envelope of a success that carries `data` and a message, stamped
    /// `timestamp`.
    pub fn success_with_message_at(data: T, message: String, timestamp: i64) -> (response: Self)
        ensures
            response.success,
            response.data == Some(data),
            response.message == Some(message),
            response.timestamp == timestamp,
    {
        ApiResponse { success: true, data: Some(data), message: Some(message), timestamp }
    }

    /// The envelope of a failure with its message, stamped `timestamp`.
    pub fn error_at(message: String, timestamp: i64) -> (response: ApiResponse<()>)
        ensures
            !response.success,
            response.data is None,
            response.message == Some(message),
            response.timestamp == timestamp,
    {
        ApiResponse { success: false, data: None, message: Some(message), timestamp }
    }

    /// The envelope of a success that carries `data`, stamped with the
    /// current time.
    pub fn success(data: T) -> (response: Self)
        ensures
            response.success,
            response.data == Some(data),
            response.message is None,
    {
        Self::success_at(data, now_micros())
    }

    /// The envelope of a success that carries `data` and a message, stamped
    /// with the current time.
    pub fn success_with_message(data: T, message: String) -> (response: Self)
        ensures
            response.success,
            response.data == Some(data),
            response.message == Some(message),
    {
        Self::success_with_message_at(data, message, now_micros())
    }

    /// The envelope of a failure with its message, stamped with the current
    /// time.
    pub fn error(message: String) -> (response: ApiResponse<()>)
        ensures
            !response.success,
            response.data is None,
            response.message == Some(message),
    {
        Self::error_at(message, now_micros())
    }
}

/// Untrusted paging parameters as a caller sent them.
#[derive(Debug, PartialEq, Eq)]
pub struct PaginationQuery {
    pub page: Option<i64>,
    pub limit: Option<i64>,
    pub search: Option<String>,
    pub sort_by: Option<String>,
    pub sort_order: Option<String>,
}

impl Default for PaginationQuery {
    fn default() -> (query: Self)
        ensures
            query.page == Some(1i64),
            query.limit == Some(20i64),
            query.search is None,
            query.sort_by is None,
            query.sort_order is Some,
            query.sort_order->0@ == "ASC"@,
    {
        PaginationQuery {
            page: Some(1),
            limit: Some(20),
            search: None,
            sort_by: None,
            sort_order: Some(String::from_str("ASC")),
        }
    }
}

/// One page of records with the figures that locate it.
#[derive(Debug, PartialEq, Eq)]
pub struct PaginatedResponse<T> {
    pub data: Vec<T>,
    pub pagination: PaginationMeta,
}

impl<T> PaginatedResponse<T> {
    pub fn new(data: Vec<T>, total: i64, page: i64, limit: i64) -> (response: Self)
        ensures
            response.data == data,
            response.pagination == PaginationMeta::of(total, page, limit),
    {
        PaginatedResponse { data, pagination: PaginationMeta::new(total, page, limit) }
    }
}

/// Where a page lies in the whole listing.
#[derive(Debug, Clone, Copy, PartialEq, Eq, Structural)]
pub struct PaginationMeta {
    pub total: i64,
    pub page: i64,
    pub limit: i64,
    pub total_pages: i64,
    pub has_next: bool,
    pub has_prev: bool,
}

impl PaginationMeta {
    /// The figures for page `page` of `total` records at `limit` per page.
    pub open spec fn of(total: i64, page: i64, limit: i64) -> PaginationMeta {
        PaginationMeta {
            total,
            page,
            limit,
            total_pages: total_pages_of(total as int, limit as int) as i64,
            has_next: page < total_pages_of(total as int, limit as int),
            has_prev: page > 1,
        }
    }

    pub fn new(total: i64, page: i64, limit: i64) -> (meta: Self)
        ensures
            meta == Self::of(total, page, limit),
            meta.total_pages == total_pages_of(total as int, limit as int),
            meta.has_next == (page < meta.total_pages),
            meta.has_prev == (page > 1),
            limit <= 0 ==> meta.total_pages == 0,
    {
        let total_pages = calculate_total_pages(total, limit);
        PaginationMeta {
            total,
            page,
            limit,
            total_pages,
            has_next: page < total_pages,
            has_prev: page > 1,
        }
    }
}

/// For a page from the first on, a page size from 1 to 100 and a count of
/// rows, the figures of a page agree with one another: there is a next page
/// exactly when the page lies before the last, a previous one exactly when it
/// lies after the first, and the number of pages is the ceiling of the count
/// over the page size.
pub proof fn meta_is_coherent(total: i64, page: i64, limit: i64)
    requires
        total >= 0,
        page >= 1,
        1 <= limit <= 100,
    ensures
        ({
            let meta = PaginationMeta::of(total, page, limit);
            &&& meta.total == total
            &&& meta.page == page
            &&& meta.limit == limit
            &&& meta.has_next == (page < meta.total_pages)
            &&& meta.has_prev == (page > 1)
            &&& meta.total_pages * limit >= total
            &&& (meta.total_pages - 1) * limit < total
        }),
{
    lemma_pages_at_most_total(total as int, limit as int);
    total_pages_is_ceiling(total as int, limit as int);
}

/// Without a positive page size there are no pages and no next page,
/// whatever the count and the page.
pub proof fn meta_without_limit(total: i64, page: i64, limit: i64)
    requires
        limit <= 0,
    ensures
        PaginationMeta::of(total, page, limit).total_pages == 0,
        PaginationMeta::of(total, page, limit).has_next == (page < 0),
{
}

} // verus!
