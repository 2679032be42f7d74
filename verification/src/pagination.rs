//! Pagination of query results.

use vstd::arithmetic::div_mod::lemma_fundamental_div_mod;
use vstd::arithmetic::mul::lemma_mul_inequality;
use vstd::math::{max, min};
use vstd::prelude::*;
use vstd::slice::slice_subrange;

use crate::validate::{FieldOutOfRange, Validator, ValidatorExt, value};

verus! {

/// Pagination helper: a result set served out in pages of a bounded
/// size.
pub struct Pagination<T> {
    results: Vec<T>,
    limit: u32,
}

impl<T> View for Pagination<T> {
    type V = Seq<T>;

    closed spec fn view(&self) -> Seq<T> {
        self.results@
    }
}

impl<T> Pagination<T> {
    /// The largest page size this pagination serves.
    pub closed spec fn spec_limit(&self) -> u32 {
        self.limit
    }

    /// The last valid page number for a page size: the results fill
    /// this many full pages, but there is always at least one page.
    pub open spec fn spec_max_page(&self, count: int) -> int
        recommends
            count >= 1,
    {
        max(self@.len() as int / count, 1)
    }

    /// Whether a page request is acceptable: the page size within
    /// the limit and the page number within the filled pages.
    pub open spec fn spec_accepts(&self, page: int, count: int) -> bool {
        &&& 1 <= count <= self.spec_limit()
        &&& 1 <= page <= self.spec_max_page(count)
    }

    /// The slice of results a page request selects.
    pub open spec fn spec_page(&self, page: int, count: int) -> Seq<T>
        recommends
            self.spec_accepts(page, count),
    {
        self@.subrange((page - 1) * count, min(self@.len() as int, (page - 1) * count + count))
    }

    /// Creates a new pagination with the default count limit of 25.
    pub fn new(results: Vec<T>) -> (r: Pagination<T>)
        ensures
            r@ == results@,
            r.spec_limit() == 25,
    {
        Pagination { results, limit: 25 }
    }

    /// Changes the limit of the pagination.
    ///
    /// By default, it is 25.
    pub fn limit(self, limit: u32) -> (r: Pagination<T>)
        ensures
            r@ == self@,
            r.spec_limit() == limit,
    {
        Pagination { limit, ..self }
    }

    /// Paginates the results.
    ///
    /// Returns the requested page: `count` results starting after
    /// `page - 1` full pages, short only at the tail of the result
    /// set.  A page size outside `1..=limit`, or a page number past
    /// the filled pages, is rejected with a descriptive error naming
    /// the offending field.
    pub fn paginate(&self, page: u32, count: u32) -> (r: Result<&[T], FieldOutOfRange>)
        ensures
            r is Ok <==> self.spec_accepts(page as int, count as int),
            r matches Ok(s) ==> s@ == self.spec_page(page as int, count as int),
            r matches Err(e) ==> !(1 <= count <= self.spec_limit()) && e.name@ == "count"@ || (1
                <= count <= self.spec_limit()) && e.name@ == "page"@,
    {
        let count = match value("count", count as usize).in_range(1, self.limit as usize).validate() {
            Ok(count) => count,
            Err(e) => {
                return Err(e);
            },
        };
        let len = self.results.len();
        let filled = len / count;
        let max_page = if filled > 1 {
            filled
        } else {
            1
        };
        let page = match value("page", page as usize).in_range(1, max_page).validate() {
            Ok(page) => page,
            Err(e) => {
                return Err(e);
            },
        };
        proof {
            let p = page as int;
            let c = count as int;
            let l = len as int;
            let f = filled as int;
            if filled > 1 {
                lemma_fundamental_div_mod(l, c);
                assert(c * (l / c) <= l);
                lemma_mul_inequality(p, f, c);
                assert(f * c == c * f) by (nonlinear_arith);
                assert((p - 1) * c == p * c - c) by (nonlinear_arith);
                assert((p - 1) * c + c <= l);
            } else {
                assert(page == 1);
                assert((p - 1) * c == 0) by (nonlinear_arith)
                    requires
                        p == 1,
                ;
            }
        }
        let start = (page - 1) * count;
        let end = if len - start < count {
            len
        } else {
            start + count
        };
        Ok(slice_subrange(self.results.as_slice(), start, end))
    }
}

} // verus!
