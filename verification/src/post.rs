//! Pagination parameters of the post listing pages.

use vstd::prelude::*;

verus! {

/// Posts shown per page when the request names no size.
pub const DEFAULT_POSTS_PER_PAGE: u64 = 5;

/// Optional pagination parameters of the post listing, as decoded from the
/// request's query string.
#[derive(Debug, Clone)]
pub struct Params {
    pub page: Option<u64>,
    pub posts_per_page: Option<u64>,
}

impl Params {
    /// The effective page number and page size: the first page and the
    /// default size stand in for absent parameters.
    pub fn resolve(&self) -> (r: (u64, u64))
        ensures
            r.0 == (if self.page is Some { self.page->0 } else { 1u64 }),
            r.1 == (if self.posts_per_page is Some {
                self.posts_per_page->0
            } else {
                DEFAULT_POSTS_PER_PAGE
            }),
    {
        let page: u64 = match self.page {
            Some(p) => p,
            None => 1,
        };
        let size: u64 = match self.posts_per_page {
            Some(s) => s,
            None => DEFAULT_POSTS_PER_PAGE,
        };
        (page, size)
    }
}

} // verus!
