//! The uniform response envelope `{message, data, meta}`.
use vstd::prelude::*;

verus! {

/// Pagination metadata returned alongside a page of results.
#[derive(Debug, Clone, Copy, PartialEq, Eq)]
pub struct Meta {
    pub page: Option<i64>,
    pub per_page: Option<i64>,
    pub total: Option<i64>,
}

/// Metadata with every field absent.
impl Meta {
    pub open spec fn empty_spec() -> Meta {
        Meta { page: None, per_page: None, total: None }
    }

    /// Metadata for one page of a listing.
    pub fn new(page: i64, per_page: i64, total: i64) -> (r: Meta)
        ensures
            r.page == Some(page),
            r.per_page == Some(per_page),
            r.total == Some(total),
    {
        Meta { page: Some(page), per_page: Some(per_page), total: Some(total) }
    }

    /// Metadata for a response that is not a listing.
    pub fn empty() -> (r: Meta)
        ensures
            r == Meta::empty_spec(),
    {
        Meta { page: None, per_page: None, total: None }
    }
}

/// The envelope around every response body.
#[derive(Debug)]
pub struct ApiResponse<T> {
    pub message: String,
    pub data: Option<T>,
    pub meta: Option<Meta>,
}

impl<T> ApiResponse<T> {
    /// A successful response carrying `data`.
    pub fn success(message: &str, data: T, meta: Option<Meta>) -> (r: ApiResponse<T>)
        ensures
            r.message@ == message@,
            r.data == Some(data),
            r.meta == meta,
    {
        ApiResponse { message: String::from_str(message), data: Some(data), meta }
    }
}

} // verus!
