//! What the templates are rendered with.

use crate::case::{rows_of, rows_or_empty, views_of, Case, CaseView, StoreFailure};
use crate::decimal::decimal_value;
use crate::engine::{
    context_entries, context_insert, json_of, jsons_of, list_value, new_context, new_object,
    no_entries, number_value, object_insert, object_value, text_value, Json,
};
use crate::link::{next_link_names_next_page, next_page_url, next_page_url_of, page_link_prefix};
use crate::paging::{effective_page_of, Pagination};
use crate::timestamp::{timestamp_text_of, Timestamp};
use vstd::prelude::*;

verus! {

/// What the case table is rendered with: the records of the page, the
/// number of the page, and the link to the page after it.
#[derive(Debug)]
pub struct TableContext {
    pub cases: Vec<Case>,
    pub page: i32,
    pub url: String,
}

/// What a `TableContext` says.
pub struct TableContextView {
    pub cases: Seq<CaseView>,
    pub page: int,
    pub url: Seq<char>,
}

impl View for TableContext {
    type V = TableContextView;

    open spec fn view(&self) -> TableContextView {
        TableContextView { cases: views_of(self.cases@), page: self.page as int, url: self.url@ }
    }
}

/// What the index page is rendered with: the time of the request.
#[derive(Debug)]
pub struct IndexContext {
    pub now: String,
}

/// What the engine is given for one case record: its three fields under
/// their names.
pub open spec fn case_json(case: CaseView) -> Json {
    Json::Object(
        no_entries().insert("id"@, Json::Number(case.id)).insert(
            "message"@,
            Json::Text(case.message),
        ).insert("status"@, Json::Text(case.status)),
    )
}

/// What the engine is given for the records of a page: a list of them, in
/// their order.
pub open spec fn cases_json(cases: Seq<CaseView>) -> Json {
    Json::List(cases.map_values(|case: CaseView| case_json(case)))
}

/// What the engine is given for the case table: the records as `cases`,
/// the number of the page as `page`, the link to the next page as `url`.
pub open spec fn table_entries_of(context: TableContextView) -> Map<Seq<char>, Json> {
    no_entries().insert("cases"@, cases_json(context.cases)).insert(
        "page"@,
        Json::Number(context.page),
    ).insert("url"@, Json::Text(context.url))
}

/// What the engine is given for the index page: the time as `now`.
pub open spec fn index_entries_of(now: Seq<char>) -> Map<Seq<char>, Json> {
    no_entries().insert("now"@, Json::Text(now))
}

impl Case {
    /// This record as a value of the template engine.
    pub fn to_engine(&self) -> (value: tera::Value)
        ensures
            json_of(value) == case_json(self@),
    {
        let mut object = new_object();
        object_insert(&mut object, "id", number_value(self.id as i64));
        object_insert(&mut object, "message", text_value(self.message.as_str()));
        object_insert(&mut object, "status", text_value(self.status.as_str()));
        object_value(object)
    }
}

impl TableContext {
    /// This context as the template engine takes it.
    pub fn to_engine(&self) -> (context: tera::Context)
        ensures
            context_entries(context) == table_entries_of(self@),
    {
        let mut rows: Vec<tera::Value> = Vec::new();
        let mut i: usize = 0;
        while i < self.cases.len()
            invariant
                0 <= i <= self.cases@.len(),
                rows@.len() == i,
                forall|k: int| 0 <= k < i ==> json_of(#[trigger] rows@[k]) == case_json(self.cases@[k]@),
            decreases self.cases@.len() - i,
        {
            rows.push(self.cases[i].to_engine());
            i = i + 1;
        }
        proof {
            assert(jsons_of(rows@) =~= views_of(self.cases@).map_values(
                |case: CaseView| case_json(case),
            ));
        }
        let mut context = new_context();
        context_insert(&mut context, "cases", &list_value(rows));
        context_insert(&mut context, "page", &number_value(self.page as i64));
        context_insert(&mut context, "url", &text_value(self.url.as_str()));
        context
    }
}

impl IndexContext {
    /// This context as the template engine takes it.
    pub fn to_engine(&self) -> (context: tera::Context)
        ensures
            context_entries(context) == index_entries_of(self.now@),
    {
        let mut context = new_context();
        context_insert(&mut context, "now", &text_value(self.now.as_str()));
        context
    }
}

/// The context of the case table for the query parameter `param` and the
/// outcome `fetched` of the read: the page is the parameter clamped, the
/// link leads to the page after it, and the records are those that were
/// read, none where the read failed.
pub open spec fn table_context_of(
    param: Option<i32>,
    fetched: Result<Vec<Case>, StoreFailure>,
) -> TableContextView {
    TableContextView {
        cases: views_of(rows_of(fetched)),
        page: effective_page_of(param),
        url: next_page_url_of(effective_page_of(param)),
    }
}

/// The context of the case table for one request.
pub fn table_context(param: Option<i32>, fetched: Result<Vec<Case>, StoreFailure>) -> (context:
    TableContext)
    ensures
        context@ == table_context_of(param, fetched),
        context.cases@ == rows_of(fetched),
{
    let page: i32 = Pagination { page: param }.effective_page();
    let url = next_page_url(page);
    let cases = rows_or_empty(fetched);
    TableContext { cases, page, url }
}

/// The context of the index page for a request made at `now`.
pub fn index_context(now: &Timestamp) -> (context: IndexContext)
    ensures
        context.now@ == timestamp_text_of(*now),
{
    IndexContext { now: now.format() }
}

/// Whatever page is asked for and whatever the read gave, the link of the
/// table is the prefix with the number of the page after the one shown.
pub proof fn link_names_page_after_shown(
    param: Option<i32>,
    fetched: Result<Vec<Case>, StoreFailure>,
)
    ensures
        table_context_of(param, fetched).page >= 0,
        table_context_of(param, fetched).url.subrange(0, page_link_prefix().len() as int)
            == page_link_prefix(),
        decimal_value(
            table_context_of(param, fetched).url.subrange(
                page_link_prefix().len() as int,
                table_context_of(param, fetched).url.len() as int,
            ),
        ) == table_context_of(param, fetched).page + 1,
{
    next_link_names_next_page(effective_page_of(param));
}

/// A negative page is rendered as page `0` is.
pub proof fn negative_page_renders_first_page(page: i32, fetched: Result<Vec<Case>, StoreFailure>)
    requires
        page < 0,
    ensures
        table_context_of(Some(page), fetched) == table_context_of(Some(0i32), fetched),
{
}

/// A request without a page is rendered as page `0` is.
pub proof fn absent_page_renders_first_page(fetched: Result<Vec<Case>, StoreFailure>)
    ensures
        table_context_of(None, fetched) == table_context_of(Some(0i32), fetched),
{
}

/// A failed read leaves a table without records, on the page and with the
/// link that a read that succeeded would have had.
pub proof fn failed_read_renders_empty_table(
    param: Option<i32>,
    failure: StoreFailure,
    rows: Vec<Case>,
)
    ensures
        table_context_of(param, Err(failure)).cases == Seq::<CaseView>::empty(),
        table_context_of(param, Err(failure)).page == table_context_of(param, Ok(rows)).page,
        table_context_of(param, Err(failure)).url == table_context_of(param, Ok(rows)).url,
{
    assert(views_of(Seq::<Case>::empty()) =~= Seq::<CaseView>::empty());
}

} // verus!
