//! Listing parameters: pagination, sort direction and filters.
use vstd::prelude::*;

verus! {

/// The default number of rows per page.
pub const DEFAULT_PER_PAGE: i64 = 20;

/// The largest number of rows per page.
pub const MAX_PER_PAGE: i64 = 100;

/// Page and page size as the caller gave them.
#[derive(Debug, Clone, Copy, PartialEq, Eq)]
pub struct Pagination {
    pub page: Option<i64>,
    pub per_page: Option<i64>,
}

/// The page number after defaulting to 1 and raising to at least 1.
pub open spec fn normalized_page(p: Pagination) -> int {
    let page = match p.page {
        Some(n) => n as int,
        None => 1,
    };
    if page < 1 {
        1
    } else {
        page
    }
}

/// The page size after defaulting to 20 and clamping to `[1, 100]`.
pub open spec fn normalized_per_page(p: Pagination) -> int {
    let n = match p.per_page {
        Some(n) => n as int,
        None => DEFAULT_PER_PAGE as int,
    };
    if n < 1 {
        1
    } else if n > MAX_PER_PAGE {
        MAX_PER_PAGE as int
    } else {
        n
    }
}

/// The number of rows skipped, `(page - 1) * per_page`, held at `i64::MAX`
/// where it would not fit.
pub open spec fn normalized_offset(p: Pagination) -> int {
    let o = (normalized_page(p) - 1) * normalized_per_page(p);
    if o > i64::MAX {
        i64::MAX as int
    } else {
        o
    }
}

impl Pagination {
    /// `(page, per_page, offset)` with `page >= 1`, `per_page` in `[1, 100]`
    /// and `offset = (page - 1) * per_page`.
    pub fn normalize(&self) -> (r: (i64, i64, i64))
        ensures
            r.0 == normalized_page(*self),
            r.1 == normalized_per_page(*self),
            r.2 == normalized_offset(*self),
            r.0 >= 1,
            1 <= r.1 <= MAX_PER_PAGE,
            r.2 >= 0,
    {
        let page: i64 = match self.page {
            Some(n) => if n < 1 {
                1
            } else {
                n
            },
            None => 1,
        };
        let requested: i64 = match self.per_page {
            Some(n) => n,
            None => DEFAULT_PER_PAGE,
        };
        let per_page: i64 = if requested < 1 {
            1
        } else if requested > MAX_PER_PAGE {
            MAX_PER_PAGE
        } else {
            requested
        };
        let skipped: i64 = page - 1;
        let offset: i64 = if skipped > i64::MAX / per_page {
            proof {
                assert(skipped * per_page > i64::MAX) by (nonlinear_arith)
                    requires
                        skipped > i64::MAX / per_page,
                        per_page >= 1,
                ;
            }
            i64::MAX
        } else {
            proof {
                assert(0 <= skipped * per_page <= i64::MAX) by (nonlinear_arith)
                    requires
                        skipped <= i64::MAX / per_page,
                        skipped >= 0,
                        per_page >= 1,
                ;
            }
            skipped * per_page
        };
        (page, per_page, offset)
    }
}

/// Direction of a sort.
#[derive(Debug, Clone, Copy, PartialEq, Eq)]
pub enum SortOrder {
    Asc,
    Desc,
}

impl SortOrder {
    /// The SQL keyword for the direction.
    pub fn as_sql(&self) -> (r: &'static str)
        ensures
            r@ == (match self {
                SortOrder::Asc => "ASC"@,
                SortOrder::Desc => "DESC"@,
            }),
    {
        match self {
            SortOrder::Asc => "ASC",
            SortOrder::Desc => "DESC",
        }
    }
}

/// The column a product listing is sorted by.
#[derive(Debug, Clone, Copy, PartialEq, Eq)]
pub enum ProductSortBy {
    CreatedAt,
    Price,
    Name,
}

impl ProductSortBy {
    /// The column name.
    pub fn as_sql(&self) -> (r: &'static str)
        ensures
            r@ == (match self {
                ProductSortBy::CreatedAt => "created_at"@,
                ProductSortBy::Price => "price"@,
                ProductSortBy::Name => "name"@,
            }),
    {
        match self {
            ProductSortBy::CreatedAt => "created_at",
            ProductSortBy::Price => "price",
            ProductSortBy::Name => "name",
        }
    }
}

/// Filters of the product listing.
#[derive(Debug)]
pub struct ProductQuery {
    pub pagination: Pagination,
    pub q: Option<String>,
    pub min_price: Option<i64>,
    pub max_price: Option<i64>,
    pub sort_by: Option<ProductSortBy>,
    pub sort_order: Option<SortOrder>,
}

impl ProductQuery {
    /// The column to sort by: creation time unless another was asked for.
    pub fn sort_by_or_default(&self) -> (r: ProductSortBy)
        ensures
            r == (match self.sort_by {
                Some(c) => c,
                None => ProductSortBy::CreatedAt,
            }),
    {
        match self.sort_by {
            Some(c) => c,
            None => ProductSortBy::CreatedAt,
        }
    }

    /// The sort direction: newest first unless another was asked for.
    pub fn sort_order_or_default(&self) -> (r: SortOrder)
        ensures
            r == (match self.sort_order {
                Some(o) => o,
                None => SortOrder::Desc,
            }),
    {
        match self.sort_order {
            Some(o) => o,
            None => SortOrder::Desc,
        }
    }

    /// The `LIKE` pattern `%q%` for a non-empty search text.
    pub fn search_pattern(&self) -> (r: Option<String>)
        ensures
            match r {
                Some(p) => self.q is Some && self.q->Some_0@.len() > 0 && p@ == "%"@ + self.q->Some_0@
                    + "%"@,
                None => self.q is None || self.q->Some_0@.len() == 0,
            },
    {
        match &self.q {
            Some(q) => {
                if q.as_str().unicode_len() == 0 {
                    None
                } else {
                    let mut p = String::from_str("%");
                    p.append(q.as_str());
                    p.append("%");
                    Some(p)
                }
            },
            None => None,
        }
    }
}

/// Filters of an order listing.
#[derive(Debug)]
pub struct OrderListQuery {
    pub pagination: Pagination,
    pub status: Option<String>,
    pub sort_order: Option<SortOrder>,
}

impl OrderListQuery {
    /// The status to filter by; an empty one filters nothing.
    pub fn status_filter(&self) -> (r: Option<String>)
        ensures
            match r {
                Some(t) => self.status is Some && self.status->Some_0@.len() > 0 && t@
                    == self.status->Some_0@,
                None => self.status is None || self.status->Some_0@.len() == 0,
            },
    {
        match &self.status {
            Some(t) => {
                if t.as_str().unicode_len() == 0 {
                    None
                } else {
                    Some(t.clone())
                }
            },
            None => None,
        }
    }

    /// The sort direction: newest first unless another was asked for.
    pub fn sort_order_or_default(&self) -> (r: SortOrder)
        ensures
            r == (match self.sort_order {
                Some(o) => o,
                None => SortOrder::Desc,
            }),
    {
        match self.sort_order {
            Some(o) => o,
            None => SortOrder::Desc,
        }
    }
}

} // verus!
