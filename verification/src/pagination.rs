//! Paginated listings: which page of the ordered rows a request asks for.
use vstd::prelude::*;

verus! {

/// A listing request: skip `offset` rows, show at most `limit` rows.
#[derive(Debug, PartialEq, Eq, Clone, Copy)]
pub struct Paginated {
    pub offset: u64,
    pub limit: u64,
}

/// A page of a listing, with the number of rows in the whole listing.
#[derive(Debug, PartialEq, Eq)]
pub struct PaginatedResults<T> {
    pub items: Vec<T>,
    pub num_items: u64,
}

/// A page of fixed size, counted from 0: it covers the rows from
/// `page * page_size` to just before `(page + 1) * page_size`.
#[derive(Debug, PartialEq, Eq, Clone, Copy)]
pub struct PageRequest {
    pub page_size: u64,
    pub page: u64,
}

impl PageRequest {
    /// The index of the first row of the page.
    pub open spec fn first_row(self) -> int {
        self.page as int * self.page_size as int
    }

    /// Whether the row at `row` belongs to the page.
    pub open spec fn covers(self, row: int) -> bool {
        self.first_row() <= row < self.first_row() + self.page_size
    }
}

impl Paginated {
    /// The page, counted from 0, that holds the row at `offset` when pages
    /// hold `limit` rows; an empty page size asks for the first page.
    pub open spec fn spec_page_index(self) -> int {
        if self.limit == 0 {
            0
        } else {
            self.offset as int / self.limit as int
        }
    }

    pub fn offset(&self) -> (offset: u64)
        ensures
            offset == self.offset,
    {
        self.offset
    }

    pub fn limit(&self) -> (limit: u64)
        ensures
            limit == self.limit,
    {
        self.limit
    }

    pub fn page_index(&self) -> (page: u64)
        ensures
            page == self.spec_page_index(),
    {
        if self.limit == 0 {
            0
        } else {
            self.offset / self.limit
        }
    }

    /// The page that a listing fetches for this request: pages of `limit`
    /// rows, and among them the one that holds the row at `offset`. Pages
    /// of no rows cannot be fetched, so `limit` must not be 0.
    pub fn page_request(&self) -> (request: PageRequest)
        requires
            self.limit > 0,
        ensures
            request.page_size == self.limit,
            request.page == self.spec_page_index(),
            request.covers(self.offset as int),
    {
        let page = self.page_index();
        proof {
            lemma_page_holds_offset(*self);
        }
        PageRequest { page_size: self.limit, page }
    }
}

/// With pages of `limit > 0` rows, the page that a request asks for starts
/// at or before its offset and ends after it: the row at `offset` is on it.
pub proof fn lemma_page_holds_offset(request: Paginated)
    requires
        request.limit > 0,
    ensures
        (PageRequest { page_size: request.limit, page: request.spec_page_index() as u64 }).covers(
            request.offset as int,
        ),
        request.spec_page_index() * request.limit as int <= request.offset,
{
    let o = request.offset as int;
    let l = request.limit as int;
    vstd::arithmetic::div_mod::lemma_fundamental_div_mod(o, l);
    vstd::arithmetic::div_mod::lemma_mod_bound(o, l);
    vstd::arithmetic::div_mod::lemma_div_pos_is_pos(o, l);
    assert(request.spec_page_index() as u64 == o / l);
}

/// Pages of one size do not overlap: a page of `page_size > 0` rows that
/// covers the row at `row` is the page that a request with offset `row`
/// asks for. So every row of a listing is on exactly one page.
pub proof fn lemma_row_is_on_one_page(request: PageRequest, row: u64)
    requires
        request.page_size > 0,
        request.covers(row as int),
    ensures
        request.page as int == (Paginated { offset: row, limit: request.page_size }).spec_page_index(),
{
    let l = request.page_size as int;
    let k = request.page as int;
    let r = row as int;
    assert(k * l <= r < k * l + l);
    vstd::arithmetic::div_mod::lemma_fundamental_div_mod(r, l);
    vstd::arithmetic::div_mod::lemma_mod_bound(r, l);
    let q = r / l;
    assert(q * l <= r < q * l + l);
    if k < q {
        vstd::arithmetic::mul::lemma_mul_inequality(k + 1, q, l);
        assert((k + 1) * l == k * l + l) by (nonlinear_arith);
    } else if k > q {
        vstd::arithmetic::mul::lemma_mul_inequality(q + 1, k, l);
        assert((q + 1) * l == q * l + l) by (nonlinear_arith);
    }
}

} // verus!
