//! Which page of a listing a request asks for.

use vstd::prelude::*;

verus! {

pub const DEFAULT_PER_PAGE: i64 = 10;

pub const DEFAULT_PAGE: i64 = 1;

/// The page of a listing and its size. A part that the request leaves out
/// takes its default.
#[derive(Clone, Copy, Debug, PartialEq, Eq, Structural)]
pub struct Pagination {
    per_page: Option<i64>,
    page: Option<i64>,
}

impl Pagination {
    /// The pagination that a request spelled, part by part.
    pub fn new(per_page: Option<i64>, page: Option<i64>) -> (r: Pagination)
        ensures
            r.per_page() == match per_page {
                Some(n) => n,
                None => DEFAULT_PER_PAGE,
            },
            r.page() == match page {
                Some(n) => n,
                None => DEFAULT_PAGE,
            },
    {
        Pagination { per_page, page }
    }

    /// The number of rows on a page.
    pub closed spec fn per_page(self) -> i64 {
        match self.per_page {
            Some(n) => n,
            None => DEFAULT_PER_PAGE,
        }
    }

    /// The number of the page, counted from 1.
    pub closed spec fn page(self) -> i64 {
        match self.page {
            Some(n) => n,
            None => DEFAULT_PAGE,
        }
    }

    pub fn get_per_page(&self) -> (r: i64)
        ensures
            r == self.per_page(),
    {
        match self.per_page {
            Some(n) => n,
            None => DEFAULT_PER_PAGE,
        }
    }

    pub fn get_page(&self) -> (r: i64)
        ensures
            r == self.page(),
    {
        match self.page {
            Some(n) => n,
            None => DEFAULT_PAGE,
        }
    }

    /// The number of rows that come before the page: `per_page * (page - 1)`.
    /// It is `None` where `page - 1` or the product does not fit in an `i64`.
    pub fn offset(&self) -> (r: Option<i64>)
        ensures
            r == if i64::MIN <= self.page() - 1 && i64::MIN <= self.per_page() * (self.page() - 1)
                <= i64::MAX {
                Some((self.per_page() * (self.page() - 1)) as i64)
            } else {
                None
            },
    {
        let page = self.get_page();
        let per_page = self.get_per_page();
        match page.checked_sub(1) {
            Some(before) => per_page.checked_mul(before),
            None => None,
        }
    }
}

impl Default for Pagination {
    fn default() -> (r: Pagination)
        ensures
            r.per_page() == DEFAULT_PER_PAGE,
            r.page() == DEFAULT_PAGE,
    {
        Pagination { per_page: Some(DEFAULT_PER_PAGE), page: Some(DEFAULT_PAGE) }
    }
}

} // verus!
