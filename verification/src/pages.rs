//! The three pages of the server: what each is rendered with, and the
//! reply that its rendering becomes.

use crate::case::{Case, StoreFailure};
use crate::context::{
    index_context, index_entries_of, table_context, table_context_of, table_entries_of,
};
use crate::engine::{context_entries, new_context, no_entries, rendering_returns, Json};
use crate::render::{
    failure_body, follows_engine_rendering, is_loaded, serve_page, template_of, Page, Served,
};
use crate::timestamp::{timestamp_text_of, Timestamp};
use vstd::prelude::*;

verus! {

/// What is asked of the template engine for one request: the page whose
/// template is rendered, and the values it is rendered with.
pub struct PageRequest {
    pub page: Page,
    pub context: tera::Context,
}

/// Whether `served` answers a request for `page` to `engine`: it is what
/// some rendering ends in, and where the template of `page` is not loaded
/// it is the failure reply.
pub open spec fn answers(served: Served, engine: tera::Tera, page: Page) -> bool {
    &&& follows_engine_rendering(served)
    &&& !is_loaded(engine, page) ==> served@.status == 500 && served@.body == failure_body()
        && served@.log_line is Some
}

/// What the case table asks of the engine for the query parameter `param`
/// and the outcome `fetched` of the read: the table template, with the
/// records that were read as `cases`, the clamped page as `page` and the
/// link to the next page as `url`. A read that failed is asked for as a
/// table without records.
pub fn case_table_request(param: Option<i32>, fetched: Result<Vec<Case>, StoreFailure>) -> (request:
    PageRequest)
    ensures
        request.page == Page::CaseTable,
        context_entries(request.context) == table_entries_of(table_context_of(param, fetched)),
{
    let context = table_context(param, fetched);
    PageRequest { page: Page::CaseTable, context: context.to_engine() }
}

/// What the page that frames the case table asks of the engine: its
/// template, with no values at all.
pub fn cases_request() -> (request: PageRequest)
    ensures
        request.page == Page::Cases,
        context_entries(request.context) == no_entries(),
{
    PageRequest { page: Page::Cases, context: new_context() }
}

/// What the index page asks of the engine at the time `now`: its template,
/// with the text of the time as `now`.
pub fn index_request(now: &Timestamp) -> (request: PageRequest)
    ensures
        request.page == Page::Index,
        context_entries(request.context) == index_entries_of(timestamp_text_of(*now)),
{
    let context = index_context(now);
    PageRequest { page: Page::Index, context: context.to_engine() }
}

/// Whether `engine` returns from rendering `page` with the values
/// `entries`.
pub open spec fn returns_from(
    engine: tera::Tera,
    page: Page,
    entries: Map<Seq<char>, Json>,
) -> bool {
    rendering_returns(engine, template_of(page), entries)
}

/// Hands `request` to `engine` and replies with what its rendering ends in.
/// The engine is one that returns from the rendering asked for.
pub fn serve_request(engine: &tera::Tera, request: &PageRequest) -> (served: Served)
    requires
        returns_from(*engine, request.page, context_entries(request.context)),
    ensures
        answers(served, *engine, request.page),
{
    serve_page(engine, request.page, &request.context)
}

/// The case table for the query parameter `param`, once the store was read
/// with the plan of that parameter and gave `fetched`: the reply to
/// `case_table_request(param, fetched)`. Where the table template is not
/// loaded the reply is the failure reply; where it is, the engine decides.
/// The engine is one that returns from rendering that request.
pub fn case_table(
    engine: &tera::Tera,
    param: Option<i32>,
    fetched: Result<Vec<Case>, StoreFailure>,
) -> (served: Served)
    requires
        returns_from(
            *engine,
            Page::CaseTable,
            table_entries_of(table_context_of(param, fetched)),
        ),
    ensures
        answers(served, *engine, Page::CaseTable),
{
    let request = case_table_request(param, fetched);
    serve_request(engine, &request)
}

/// The page that frames the case table: the reply to `cases_request()`.
/// The engine is one that returns from rendering that request.
pub fn cases(engine: &tera::Tera) -> (served: Served)
    requires
        returns_from(*engine, Page::Cases, no_entries()),
    ensures
        answers(served, *engine, Page::Cases),
{
    let request = cases_request();
    serve_request(engine, &request)
}

/// The index page at the time `now`: the reply to `index_request(now)`.
/// The engine is one that returns from rendering that request.
pub fn index(engine: &tera::Tera, now: &Timestamp) -> (served: Served)
    requires
        returns_from(*engine, Page::Index, index_entries_of(timestamp_text_of(*now))),
    ensures
        answers(served, *engine, Page::Index),
{
    let request = index_request(now);
    serve_request(engine, &request)
}

} // verus!
