//! Pagination of the case listing: from the `page` query parameter to the
//! bounded read that is asked of the store.

use vstd::prelude::*;

verus! {

/// The number of case records on one page of the listing.
pub const PAGE_SIZE: i64 = 10;

/// The page that a request means: `0` where the parameter is absent or
/// negative, the parameter itself otherwise.
pub open spec fn effective_page_of(param: Option<i32>) -> int {
    match param {
        Some(p) => if p < 0 { 0 } else { p as int },
        None => 0,
    }
}

/// The number of records that precede the page `page`.
pub open spec fn offset_of(page: int) -> int {
    page * 10
}

/// The query parameters of the case table.
#[derive(Clone, Copy, Debug)]
pub struct Pagination {
    pub page: Option<i32>,
}

/// The bounded read that one request makes: skip `offset` records, then take
/// up to `limit`.
#[derive(Clone, Copy, Debug, PartialEq, Eq, Structural)]
pub struct PagePlan {
    pub page: i32,
    pub offset: i64,
    pub limit: i64,
}

/// The plan that the parameter `param` leads to.
pub open spec fn plan_of(param: Option<i32>) -> PagePlan {
    PagePlan {
        page: effective_page_of(param) as i32,
        offset: offset_of(effective_page_of(param)) as i64,
        limit: PAGE_SIZE,
    }
}

impl Pagination {
    /// The page this request means, never negative.
    pub fn effective_page(&self) -> (page: i32)
        ensures
            page == effective_page_of(self.page),
            page >= 0,
    {
        match self.page {
            Some(p) => if p < 0 { 0 } else { p },
            None => 0,
        }
    }

    /// The read to make for this request.
    pub fn plan(&self) -> (plan: PagePlan)
        ensures
            plan == plan_of(self.page),
            plan.page == effective_page_of(self.page),
            plan.offset == plan.page * 10,
            plan.limit == 10,
    {
        let page: i32 = self.effective_page();
        PagePlan { page, offset: (page as i64) * PAGE_SIZE, limit: PAGE_SIZE }
    }
}

/// The read to make for the query parameter `param`.
pub fn plan_page(param: Option<i32>) -> (plan: PagePlan)
    ensures
        plan == plan_of(param),
        plan.page == effective_page_of(param),
        plan.offset == plan.page * 10,
        plan.limit == 10,
{
    Pagination { page: param }.plan()
}

/// Every plan names a page that is not negative, skips ten records for each
/// page before it and takes ten.
pub proof fn plan_is_bounded(param: Option<i32>)
    ensures
        plan_of(param).page >= 0,
        plan_of(param).offset == plan_of(param).page * 10,
        plan_of(param).offset >= 0,
        plan_of(param).limit == 10,
        param matches Some(p) ==> (p >= 0 ==> plan_of(param).page == p),
{
}

/// A negative page is served as page `0`.
pub proof fn negative_page_is_first_page(page: i32)
    requires
        page < 0,
    ensures
        effective_page_of(Some(page)) == 0,
        plan_of(Some(page)) == plan_of(Some(0i32)),
{
}

/// A request without a page is served as page `0`.
pub proof fn absent_page_is_first_page()
    ensures
        effective_page_of(None) == 0,
        plan_of(None) == plan_of(Some(0i32)),
{
}

/// Clamping twice is clamping once: the page that is served, asked for
/// again, is served as itself.
pub proof fn clamping_is_idempotent(param: Option<i32>)
    ensures
        effective_page_of(Some(effective_page_of(param) as i32)) == effective_page_of(param),
        plan_of(Some(plan_of(param).page)) == plan_of(param),
{
}

} // verus!
