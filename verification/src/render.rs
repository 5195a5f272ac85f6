//! From a page and its context to the reply that is sent: the template
//! engine renders, and what it returns decides the status and the body.

use crate::engine::{
    context_entries, error_text, error_words, loaded_templates, rendering_returns, try_render,
};
use vstd::prelude::*;
use vstd::string::StringExecFns;

verus! {

/// The status of a reply that carries a rendered page.
pub const STATUS_OK: u16 = 200;

/// The status of a reply to a request whose page could not be rendered.
pub const STATUS_INTERNAL_SERVER_ERROR: u16 = 500;

/// The pages that the server renders.
#[derive(Clone, Copy, Debug, PartialEq, Eq, Structural)]
pub enum Page {
    Index,
    Cases,
    CaseTable,
}

/// The name under which the template of `page` is loaded.
pub open spec fn template_of(page: Page) -> Seq<char> {
    match page {
        Page::Index => "index.html"@,
        Page::Cases => "cases.html"@,
        Page::CaseTable => "components/casetable.html"@,
    }
}

/// The path under which `page` is served.
pub open spec fn path_of(page: Page) -> Seq<char> {
    match page {
        Page::Index => "/"@,
        Page::Cases => "/cases"@,
        Page::CaseTable => "/casetable"@,
    }
}

/// The body of every reply to a request whose page could not be rendered.
pub open spec fn failure_body() -> Seq<char> {
    "Template error"@
}

/// What the line that reports a failed rendering starts with.
pub open spec fn failure_log_prefix() -> Seq<char> {
    "Template error: "@
}

/// That a page could not be rendered, with the engine's own words for it.
#[derive(Debug)]
pub struct RenderFailure {
    pub detail: String,
}

/// A reply: its status and its body.
#[derive(Debug)]
pub struct Reply {
    pub status: u16,
    pub body: String,
}

/// What a request ends in: the reply to send, and the line to log where
/// the page could not be rendered.
#[derive(Debug)]
pub struct Served {
    pub reply: Reply,
    pub log_line: Option<String>,
}

/// What a `Served` says.
pub struct ServedView {
    pub status: int,
    pub body: Seq<char>,
    pub log_line: Option<Seq<char>>,
}

impl View for Served {
    type V = ServedView;

    open spec fn view(&self) -> ServedView {
        ServedView {
            status: self.reply.status as int,
            body: self.reply.body@,
            log_line: match self.log_line {
                Some(line) => Some(line@),
                None => None,
            },
        }
    }
}

/// What a rendering ends in: the page with status 200 and nothing to log;
/// or, where it failed, status 500 with the fixed body, and a line to log
/// that holds the engine's words.
pub open spec fn served_of(outcome: Result<String, RenderFailure>) -> ServedView {
    match outcome {
        Ok(html) => ServedView { status: 200, body: html@, log_line: None },
        Err(failure) => ServedView {
            status: 500,
            body: failure_body(),
            log_line: Some(failure_log_prefix() + failure.detail@),
        },
    }
}

impl Page {
    /// The path under which this page is served.
    pub fn path(&self) -> (path: &'static str)
        ensures
            path@ == path_of(*self),
    {
        match self {
            Page::Index => "/",
            Page::Cases => "/cases",
            Page::CaseTable => "/casetable",
        }
    }

    /// The name under which this page's template is loaded.
    pub fn template_name(&self) -> (name: &'static str)
        ensures
            name@ == template_of(*self),
    {
        match self {
            Page::Index => "index.html",
            Page::Cases => "cases.html",
            Page::CaseTable => "components/casetable.html",
        }
    }
}

/// Whether the template of `page` is loaded into `engine`.
pub open spec fn is_loaded(engine: tera::Tera, page: Page) -> bool {
    loaded_templates(engine).contains(template_of(page))
}

/// Whether `engine` returns from rendering the template of `page` with
/// `context`.
pub open spec fn returns_for(engine: tera::Tera, page: Page, context: tera::Context) -> bool {
    rendering_returns(engine, template_of(page), context_entries(context))
}

/// Whether `words` are the engine's words for some error of its own.
pub open spec fn are_engine_words(words: Seq<char>) -> bool {
    exists|error: tera::Error| words == #[trigger] error_words(error)
}

/// Renders the template of `page` with `context`. A page whose template is
/// not loaded is a failure; of a template that is loaded the engine decides
/// whether it renders, and to what. A failure carries the engine's words,
/// and `conclude` says what each outcome becomes.
fn render_page(engine: &tera::Tera, page: Page, context: &tera::Context) -> (outcome: Result<
    String,
    RenderFailure,
>)
    requires
        returns_for(*engine, page, *context),
    ensures
        !is_loaded(*engine, page) ==> outcome is Err,
        outcome matches Err(failure) ==> are_engine_words(failure.detail@),
{
    match try_render(engine, page.template_name(), context) {
        Ok(html) => Ok(html),
        Err(error) => {
            let detail = error_text(&error);
            Err(RenderFailure { detail })
        },
    }
}

/// The reply for a rendering, and the line to log for it.
pub fn conclude(outcome: Result<String, RenderFailure>) -> (served: Served)
    ensures
        served@ == served_of(outcome),
{
    match outcome {
        Ok(html) => Served { reply: Reply { status: STATUS_OK, body: html }, log_line: None },
        Err(failure) => {
            let mut line = String::from_str("Template error: ");
            line.append(failure.detail.as_str());
            Served {
                reply: Reply {
                    status: STATUS_INTERNAL_SERVER_ERROR,
                    body: String::from_str("Template error"),
                },
                log_line: Some(line),
            }
        },
    }
}

/// Whether `served` is what some rendering ends in: the page with status
/// 200 and nothing to log, or status 500 with the fixed body and a line to
/// log.
pub open spec fn follows_a_rendering(served: Served) -> bool {
    &&& exists|outcome: Result<String, RenderFailure>| served@ == #[trigger] served_of(outcome)
    &&& served@.status == 200 || served@.status == 500
    &&& served@.status == 200 <==> served@.log_line is None
    &&& served@.status == 500 ==> served@.body == failure_body()
}

/// Whether `served` is what a rendering by the engine ends in: the reply of
/// some outcome, whose line to log, where there is one, holds the engine's
/// words for an error behind the fixed prefix.
pub open spec fn follows_engine_rendering(served: Served) -> bool {
    &&& follows_a_rendering(served)
    &&& served@.log_line matches Some(line) ==> exists|words: Seq<char>|
        line == failure_log_prefix() + words && #[trigger] are_engine_words(words)
}

/// Renders the template of `page` with `context` and replies: with what the
/// engine rendered, or with status 500 and the fixed body where it could
/// not render. A page whose template is not loaded is always answered with
/// status 500. The engine is one that returns from this rendering: where
/// it would unwind, the call is not to be made.
pub fn serve_page(engine: &tera::Tera, page: Page, context: &tera::Context) -> (served: Served)
    requires
        returns_for(*engine, page, *context),
    ensures
        follows_engine_rendering(served),
        !is_loaded(*engine, page) ==> served@.status == 500 && served@.body == failure_body()
            && served@.log_line is Some,
{
    let outcome = render_page(engine, page, context);
    conclude(outcome)
}

/// A reply has status 200 exactly where the page was rendered, and then its
/// body is the page; every other reply has status 500, the fixed body and a
/// line to log.
pub proof fn reply_follows_rendering(outcome: Result<String, RenderFailure>)
    ensures
        outcome is Ok <==> served_of(outcome).status == 200,
        outcome is Err <==> served_of(outcome).status == 500,
        outcome matches Ok(html) ==> served_of(outcome).body == html@ && served_of(
            outcome,
        ).log_line is None,
        outcome is Err ==> served_of(outcome).body == failure_body() && served_of(
            outcome,
        ).log_line is Some,
{
}

} // verus!
