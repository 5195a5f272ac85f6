//! Case records, and a page of them out of a table held in memory.

use crate::decimal::decimal_of;
use crate::paging::{plan_of, PagePlan, PAGE_SIZE};
use vstd::prelude::*;

verus! {

/// One case record, as the store holds it.
#[derive(Debug)]
pub struct Case {
    pub id: i32,
    pub message: String,
    pub status: String,
}

/// What a case record says.
pub struct CaseView {
    pub id: int,
    pub message: Seq<char>,
    pub status: Seq<char>,
}

impl View for Case {
    type V = CaseView;

    open spec fn view(&self) -> CaseView {
        CaseView { id: self.id as int, message: self.message@, status: self.status@ }
    }
}

/// That the store could not serve a read.
#[derive(Clone, Copy, Debug)]
pub struct StoreFailure {}

/// What each record of `rows` says, in their order.
pub open spec fn views_of(rows: Seq<Case>) -> Seq<CaseView> {
    rows.map_values(|c: Case| c@)
}

/// The records that a read leaves to show: those it returned, none where it
/// failed.
pub open spec fn rows_of(fetched: Result<Vec<Case>, StoreFailure>) -> Seq<Case> {
    match fetched {
        Ok(rows) => rows@,
        Err(_) => Seq::<Case>::empty(),
    }
}

/// Up to `limit` of `rows` after the first `offset`, in their order; nothing
/// where either number is negative.
pub open spec fn window<T>(rows: Seq<T>, offset: int, limit: int) -> Seq<T> {
    if offset < 0 || limit < 0 || offset >= rows.len() {
        Seq::<T>::empty()
    } else if offset + limit >= rows.len() {
        rows.subrange(offset, rows.len() as int)
    } else {
        rows.subrange(offset, offset + limit)
    }
}

/// The text of the read that serves one page: every column of up to ten
/// records of the table of cases, behind an offset that is the read's one
/// parameter. The read names no order.
pub open spec fn page_query_of() -> Seq<char> {
    "SELECT * FROM cases LIMIT 10 OFFSET $1"@
}

/// The text of the read that serves one page; the offset of a `PagePlan`
/// is bound to its parameter.
pub fn page_query() -> (text: &'static str)
    ensures
        text@ == page_query_of(),
{
    "SELECT * FROM cases LIMIT 10 OFFSET $1"
}

/// The read takes as many records as a page holds.
pub proof fn page_query_takes_one_page()
    ensures
        page_query_of() == "SELECT * FROM cases LIMIT "@ + decimal_of(PAGE_SIZE as nat)
            + " OFFSET $1"@,
{
    reveal_strlit("SELECT * FROM cases LIMIT 10 OFFSET $1");
    reveal_strlit("SELECT * FROM cases LIMIT ");
    reveal_strlit(" OFFSET $1");
    reveal_with_fuel(decimal_of, 3);
    assert(decimal_of(10) =~= seq!['1', '0']);
    assert(page_query_of() =~= "SELECT * FROM cases LIMIT "@ + decimal_of(PAGE_SIZE as nat)
        + " OFFSET $1"@);
}

impl Case {
    /// A record that says what this one says.
    pub fn duplicate(&self) -> (copy: Case)
        ensures
            copy@ == self@,
    {
        Case { id: self.id, message: self.message.clone(), status: self.status.clone() }
    }
}

/// The records to show for a read of the store: a failed read shows none,
/// and is not passed on as a failure.
pub fn rows_or_empty(fetched: Result<Vec<Case>, StoreFailure>) -> (rows: Vec<Case>)
    ensures
        rows@ == rows_of(fetched),
        fetched is Err ==> rows@.len() == 0,
{
    match fetched {
        Ok(rows) => rows,
        Err(_) => Vec::new(),
    }
}

/// The page that `plan` asks for, out of a table held in memory: the
/// records behind the first `plan.offset`, up to `plan.limit` of them, in
/// the table's order.
pub fn select_page(table: &Vec<Case>, plan: &PagePlan) -> (rows: Vec<Case>)
    ensures
        views_of(rows@) == window(views_of(table@), plan.offset as int, plan.limit as int),
        rows@.len() == window(table@, plan.offset as int, plan.limit as int).len(),
{
    let mut rows: Vec<Case> = Vec::new();
    let total: usize = table.len();
    if plan.offset < 0 || plan.limit < 0 || (plan.offset as u64) >= (total as u64) {
        proof {
            assert(views_of(rows@) =~= window(
                views_of(table@),
                plan.offset as int,
                plan.limit as int,
            ));
        }
        return rows;
    }
    let start: usize = plan.offset as usize;
    let room: usize = total - start;
    let end: usize = if (plan.limit as u64) >= (room as u64) {
        total
    } else {
        start + (plan.limit as usize)
    };
    let mut i: usize = start;
    while i < end
        invariant
            start <= i <= end <= total,
            total == table@.len(),
            views_of(rows@) =~= views_of(table@).subrange(start as int, i as int),
            rows@.len() == i - start,
        decreases end - i,
    {
        rows.push(table[i].duplicate());
        i = i + 1;
    }
    proof {
        assert(views_of(rows@) =~= window(views_of(table@), plan.offset as int, plan.limit as int));
    }
    rows
}

/// No page holds more than ten records, whatever the table and whatever
/// page is asked for; and a page holds no more than the table has.
pub proof fn page_has_at_most_ten<T>(rows: Seq<T>, param: Option<i32>)
    ensures
        window(rows, plan_of(param).offset as int, plan_of(param).limit as int).len() <= 10,
        window(rows, plan_of(param).offset as int, plan_of(param).limit as int).len()
            <= rows.len(),
{
}

/// A page holds exactly the records that are left behind its offset, up to
/// its limit.
pub proof fn window_length<T>(rows: Seq<T>, offset: int, limit: int)
    requires
        0 <= offset,
        0 <= limit,
    ensures
        offset >= rows.len() ==> window(rows, offset, limit).len() == 0,
        offset < rows.len() && rows.len() - offset <= limit ==> window(rows, offset, limit).len()
            == rows.len() - offset,
        offset < rows.len() && rows.len() - offset > limit ==> window(rows, offset, limit).len()
            == limit,
        forall|i: int|
            0 <= i < window(rows, offset, limit).len() ==> #[trigger] window(rows, offset, limit)[i]
                == rows[offset + i],
{
}

} // verus!
