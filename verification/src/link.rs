//! The link from one page of the case table to the next.

use crate::decimal::{
    decimal_is_digits, decimal_of, decimal_reads_back, decimal_value, is_digit,
    push_signed_decimal, signed_decimal_of,
};
use crate::render::{path_of, Page};
use vstd::prelude::*;
use vstd::string::StringExecFns;

verus! {

/// What every link to a page of the case table starts with.
pub open spec fn page_link_prefix() -> Seq<char> {
    "/casetable?page="@
}

/// The link to the page `page`.
pub open spec fn page_url_of(page: int) -> Seq<char> {
    page_link_prefix() + signed_decimal_of(page)
}

/// The link to the page that follows `page`.
pub open spec fn next_page_url_of(page: int) -> Seq<char> {
    page_url_of(page + 1)
}

/// The link to the page that follows `page`: the path of the case table with
/// `page + 1` as its `page` parameter, in decimal.
pub fn next_page_url(page: i32) -> (url: String)
    ensures
        url@ == next_page_url_of(page as int),
        url@ == page_link_prefix() + signed_decimal_of(page + 1),
{
    let mut url = String::from_str("/casetable?page=");
    let next: i64 = (page as i64) + 1;
    push_signed_decimal(&mut url, next);
    url
}

/// The link behind a page that is not negative is the prefix and then
/// digits only, and the number that those digits stand for is exactly
/// `page + 1`.
pub proof fn next_link_names_next_page(page: int)
    requires
        0 <= page,
    ensures
        next_page_url_of(page) == page_link_prefix() + decimal_of((page + 1) as nat),
        next_page_url_of(page).len() > page_link_prefix().len(),
        next_page_url_of(page).subrange(0, page_link_prefix().len() as int)
            == page_link_prefix(),
        forall|i: int|
            page_link_prefix().len() <= i < next_page_url_of(page).len() ==> is_digit(
                #[trigger] next_page_url_of(page)[i],
            ),
        decimal_value(
            next_page_url_of(page).subrange(
                page_link_prefix().len() as int,
                next_page_url_of(page).len() as int,
            ),
        ) == page + 1,
{
    let prefix = page_link_prefix();
    let digits = decimal_of((page + 1) as nat);
    let url = next_page_url_of(page);
    decimal_is_digits((page + 1) as nat);
    decimal_reads_back((page + 1) as nat);
    assert(url.subrange(0, prefix.len() as int) =~= prefix);
    assert(url.subrange(prefix.len() as int, url.len() as int) =~= digits);
    assert forall|i: int| prefix.len() <= i < url.len() implies is_digit(#[trigger] url[i]) by {
        assert(url[i] == digits[i - prefix.len()]);
    }
}

/// Every link to a page of the case table leads to the path under which
/// the case table is served, with `page` as its one parameter.
pub proof fn link_leads_to_case_table(page: int)
    ensures
        page_url_of(page) == path_of(Page::CaseTable) + "?page="@ + signed_decimal_of(page),
{
    reveal_strlit("/casetable?page=");
    reveal_strlit("/casetable");
    reveal_strlit("?page=");
    assert(page_link_prefix() =~= path_of(Page::CaseTable) + "?page="@);
}

} // verus!
