//! Query pagination: page/limit parameters turned into an offset and a
//! clamped page size.

use vstd::prelude::*;

verus! {

/// Page size used when the caller supplies none, or an out-of-range one.
pub const MIN_LIMIT: u64 = 20;

/// Largest page size a caller may request.
pub const MAX_LIMIT: u64 = 200;

/// Pagination query parameters; both are optional.
pub struct Pagination {
    pub page: Option<u64>,
    pub limit: Option<u64>,
}

/// The page size actually used: the requested one if it lies in
/// `(0, MAX_LIMIT]`, else the default.
pub open spec fn spec_effective_limit(limit: Option<u64>) -> u64 {
    let l = if limit is Some { limit.unwrap() } else { MIN_LIMIT };
    if 0 < l && l <= MAX_LIMIT { l } else { MIN_LIMIT }
}

/// The row offset of the requested page, saturating at `u64::MAX` for
/// page numbers too large to address.
pub open spec fn spec_offset(page: Option<u64>, limit: Option<u64>) -> u64 {
    let p = if page is Some { page.unwrap() } else { 1u64 };
    let l = spec_effective_limit(limit);
    if p > 0 {
        if (p - 1) * l <= u64::MAX { ((p - 1) * l) as u64 } else { u64::MAX }
    } else {
        0
    }
}

impl Pagination {
    /// Turns the page/limit query into `(offset, limit)`. Invalid or absent
    /// limits fall back to the default; page numbers start at 1.
    pub fn calculate_offset_and_limit(&self) -> (r: (u64, u64))
        ensures
            r.0 == spec_offset(self.page, self.limit),
            r.1 == spec_effective_limit(self.limit),
    {
        let limit: u64 = match self.limit {
            Some(l) => l,
            None => MIN_LIMIT,
        };
        let page: u64 = match self.page {
            Some(p) => p,
            None => 1,
        };

        let limit: u64 = if 0 < limit && limit <= MAX_LIMIT { limit } else { MIN_LIMIT };
        let offset: u64 = if page > 0 {
            match (page - 1).checked_mul(limit) {
                Some(o) => o,
                None => u64::MAX,
            }
        } else {
            0
        };

        (offset, limit)
    }
}

impl Default for Pagination {
    /// First page with the default page size.
    fn default() -> (r: Self)
        ensures
            r.page == Some(1u64),
            r.limit == Some(MIN_LIMIT),
    {
        Pagination { page: Some(1), limit: Some(MIN_LIMIT) }
    }
}

} // verus!
