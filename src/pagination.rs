use vstd::prelude::*;

verus! {

/// Which page of a listing to return, counting from 1, and its size.
#[derive(Clone, Copy, Debug, PartialEq, Eq, Structural)]
pub struct PaginationFields {
    pub page: u32,
    pub per_page: u32,
}

/// The number of rows before the requested page; page 1 (or 0) starts at
/// the first row.
pub open spec fn offset_of(page: u32, per_page: u32) -> int {
    if page <= 1 {
        0
    } else {
        (page - 1) * per_page
    }
}

/// The rows of one page of a listing.
pub open spec fn page_of<T>(s: Seq<T>, p: PaginationFields) -> Seq<T> {
    let start = if offset_of(p.page, p.per_page) < s.len() {
        offset_of(p.page, p.per_page)
    } else {
        s.len() as int
    };
    let end = if start + p.per_page < s.len() {
        start + p.per_page
    } else {
        s.len() as int
    };
    s.subrange(start, end)
}

impl PaginationFields {
    /// The first page of ten rows.
    pub fn new() -> (r: PaginationFields)
        ensures
            r.page == 1,
            r.per_page == 10,
    {
        PaginationFields { page: 1, per_page: 10 }
    }

    /// The number of rows to skip.
    pub fn skip(&self) -> (r: u64)
        ensures
            r == offset_of(self.page, self.per_page),
    {
        if self.page <= 1 {
            0
        } else {
            let pages = (self.page - 1) as u64;
            assert(pages * (self.per_page as u64) <= 0xffff_ffff * 0xffff_ffff) by (nonlinear_arith)
                requires
                    pages <= 0xffff_ffff,
                    self.per_page <= 0xffff_ffff,
            ;
            pages * (self.per_page as u64)
        }
    }

    /// The largest number of rows on a page.
    pub fn take(&self) -> (r: u64)
        ensures
            r == self.per_page,
    {
        self.per_page as u64
    }
}

impl Default for PaginationFields {
    fn default() -> (r: PaginationFields)
        ensures
            r.page == 1,
            r.per_page == 10,
    {
        PaginationFields::new()
    }
}

} // verus!
