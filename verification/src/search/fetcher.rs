//! The page fetcher: what is asked of the registry for one page of hits.

use crate::text::{decimal, decimal_text, pair_views};
use vstd::prelude::*;
use vstd::string::StringExecFns;

verus! {

/// One request to the search endpoint: a `GET` of `url` with these headers
/// and these query parameters.
#[derive(Debug)]
pub struct PageRequest {
    pub url: String,
    /// The number of the page asked for, counted from 1.
    pub page: usize,
    pub headers: Vec<(String, String)>,
    pub query: Vec<(String, String)>,
}

/// The headers of every search request: JSON is asked for, and the version
/// of the search interface is named.
pub open spec fn search_headers() -> Seq<(Seq<char>, Seq<char>)> {
    seq![("Accept"@, "application/json"@), ("Search-Version"@, "v3"@)]
}

/// The query of the search request for `page`: images only, the terms,
/// the size of a page and the number of the page.
pub open spec fn search_query(terms: Seq<char>, page_size: nat, page: nat) -> Seq<
    (Seq<char>, Seq<char>),
> {
    seq![
        ("type"@, "image"@),
        ("q"@, terms),
        ("page_size"@, decimal_text(page_size)),
        ("page"@, decimal_text(page)),
    ]
}

/// A pair of owned strings.
fn pair(key: &str, value: &str) -> (kv: (String, String))
    ensures
        kv.0@ == key@,
        kv.1@ == value@,
{
    (String::from_str(key), String::from_str(value))
}

/// The request for the page with the number `page` of the hits for `terms`,
/// `page_size` hits to a page.
pub fn search_request(url: &str, terms: &str, page_size: usize, page: usize) -> (request:
    PageRequest)
    ensures
        request.url@ == url@,
        request.page == page,
        pair_views(request.headers@) == search_headers(),
        pair_views(request.query@) == search_query(terms@, page_size as nat, page as nat),
{
    let mut headers: Vec<(String, String)> = Vec::new();
    headers.push(pair("Accept", "application/json"));
    headers.push(pair("Search-Version", "v3"));
    let size_text = decimal(page_size as u64);
    let page_text = decimal(page as u64);
    let mut query: Vec<(String, String)> = Vec::new();
    query.push(pair("type", "image"));
    query.push(pair("q", terms));
    query.push(pair("page_size", size_text.as_str()));
    query.push(pair("page", page_text.as_str()));
    assert(pair_views(headers@) =~= search_headers());
    assert(pair_views(query@) =~= search_query(terms@, page_size as nat, page as nat));
    PageRequest { url: String::from_str(url), page, headers, query }
}

} // verus!
