//! Building a people search and walking through its result pages.
//!
//! The search asks for pages of ten results, starting at `page * 10` and
//! stopping before `end * 10`, or earlier when the server reports fewer
//! results. Each page fetched is handed back to `PeopleSearch::absorb`; the
//! fetching itself happens outside the library.
use vstd::prelude::*;
use vstd::utf8::encode_utf8;
use crate::errors::CrawlerError;
use crate::linkedin::api::json::{
    country_strings, country_texts, depth_strings, depth_texts, option_text, string_texts, SearchItem,
    SearchParams, SearchResult,
};
use crate::outside::{percent_encoded, url_encode};
use crate::text::{decimal, decimal_string, join, joined};

verus! {

/// Results per page of the search endpoint.
pub const ITEM_PER_PAGE: u16 = 10;

/// Base address of the Voyager API.
pub const VOYAGER_URL: &'static str = "https://www.linkedin.com/voyager/api";

/// One filter with a single value: `(key:<key>,value:List(<value>))`.
pub open spec fn filter_text(key: Seq<char>, value: Seq<char>) -> Seq<char> {
    "(key:"@ + key + ",value:List("@ + value + "))"@
}

pub open spec fn optional_filter(key: Seq<char>, value: Option<String>) -> Seq<Seq<char>> {
    match value {
        Some(v) => seq![filter_text(key, v@)],
        None => Seq::empty(),
    }
}

pub open spec fn optional_list_filter(key: Seq<char>, values: Option<Seq<Seq<char>>>) -> Seq<
    Seq<char>,
> {
    match values {
        Some(v) => seq![filter_text(key, joined(v, ","@))],
        None => Seq::empty(),
    }
}

/// The filters of a search, in the order the endpoint receives them.
pub open spec fn search_filters_spec(p: SearchParams) -> Seq<Seq<char>> {
    seq!["(key:resultType,value:List(PEOPLE))"@]
        + optional_filter("firstName"@, p.keyword_first_name)
        + optional_filter("lastName"@, p.keyword_last_name)
        + optional_filter("title"@, p.keyword_title)
        + optional_filter("company"@, p.keyword_company)
        + optional_filter("school"@, p.keyword_school)
        + optional_list_filter("geoUrn"@, country_texts(p.countries))
        + optional_list_filter("network"@, depth_texts(p.network_depth))
        + optional_list_filter("profileLanguage"@, string_texts(p.profile_language))
}

/// Law: a search is always of people, and every name, title, company and
/// school keyword that is set narrows it with a filter of its own key.
pub proof fn lemma_keywords_become_filters(p: SearchParams)
    ensures
        search_filters_spec(p).len() > 0,
        search_filters_spec(p)[0] == "(key:resultType,value:List(PEOPLE))"@,
        p.keyword_first_name matches Some(v) ==> search_filters_spec(p).contains(filter_text("firstName"@, v@)),
        p.keyword_last_name matches Some(v) ==> search_filters_spec(p).contains(filter_text("lastName"@, v@)),
        p.keyword_title matches Some(v) ==> search_filters_spec(p).contains(filter_text("title"@, v@)),
        p.keyword_company matches Some(v) ==> search_filters_spec(p).contains(filter_text("company"@, v@)),
        p.keyword_school matches Some(v) ==> search_filters_spec(p).contains(filter_text("school"@, v@)),
{
    broadcast use vstd::seq_lib::lemma_seq_concat_contains_all_elements;

    lemma_optional_filter_holds("firstName"@, p.keyword_first_name);
    lemma_optional_filter_holds("lastName"@, p.keyword_last_name);
    lemma_optional_filter_holds("title"@, p.keyword_title);
    lemma_optional_filter_holds("company"@, p.keyword_company);
    lemma_optional_filter_holds("school"@, p.keyword_school);
}

proof fn lemma_optional_filter_holds(key: Seq<char>, value: Option<String>)
    ensures
        value matches Some(v) ==> optional_filter(key, value).contains(filter_text(key, v@)),
{
    if let Some(v) = value {
        assert(optional_filter(key, value)[0] == filter_text(key, v@));
    }
}

/// The `queryParameters` value: `List(` + the filters joined by commas + `)`.
pub open spec fn filter_params_spec(p: SearchParams) -> Seq<char> {
    "List("@ + joined(search_filters_spec(p), ","@) + ")"@
}

/// The keywords of a search, or nothing.
pub open spec fn keywords_spec(p: SearchParams) -> Seq<char> {
    option_text(p.keywords)
}

/// The address of the result page starting at `offset`.
pub open spec fn search_endpoint_spec(offset: u16, encoded_keywords: Seq<char>, filter_params: Seq<char>) -> Seq<char> {
    VOYAGER_URL@ + "/graphql?variables=(start:"@ + decimal(offset as nat)
        + ",origin:GLOBAL_SEARCH_HEADER,query:(keywords:"@ + encoded_keywords
        + ",flagshipSearchIntent:SEARCH_SRP,queryParameters:"@ + filter_params
        + ",includeFiltersInResponse:false))&queryId=voyagerSearchDashClusters.b0928897b71bd00a5a7291755dcd64f0"@
}

fn filter(key: &str, value: &str) -> (res: String)
    ensures
        res@ == filter_text(key@, value@),
{
    let mut out = "(key:".to_owned();
    out.append(key);
    out.append(",value:List(");
    out.append(value);
    out.append("))");
    out
}

fn push_optional_filter(filters: &mut Vec<String>, key: &str, value: &Option<String>)
    ensures
        final(filters)@.map_values(|x: String| x@) == old(filters)@.map_values(|x: String| x@)
            + optional_filter(key@, *value),
{
    match value {
        Some(v) => {
            filters.push(filter(key, v.as_str()));
        },
        None => {},
    }
    assert(filters@.map_values(|x: String| x@) =~= old(filters)@.map_values(|x: String| x@)
        + optional_filter(key@, *value));
}

fn push_list_filter(filters: &mut Vec<String>, key: &str, values: &Vec<String>)
    ensures
        final(filters)@.map_values(|x: String| x@) == old(filters)@.map_values(|x: String| x@)
            + seq![filter_text(key@, joined(values@.map_values(|x: String| x@), ","@))],
{
    let list = join(values, ",");
    filters.push(filter(key, list.as_str()));
    assert(filters@.map_values(|x: String| x@) =~= old(filters)@.map_values(|x: String| x@)
        + seq![filter_text(key@, joined(values@.map_values(|x: String| x@), ","@))]);
}

/// The filters of a people search: the result type first, then the name,
/// title, company and school keywords, the countries, the network depths and
/// the profile languages that are set.
pub fn search_filters(params: &SearchParams) -> (res: Vec<String>)
    ensures
        res@.map_values(|x: String| x@) == search_filters_spec(*params),
        res@.len() > 0 && res@[0]@ == "(key:resultType,value:List(PEOPLE))"@,
        params.keyword_first_name matches Some(v) ==> res@.map_values(|x: String| x@).contains(
            filter_text("firstName"@, v@),
        ),
        params.keyword_last_name matches Some(v) ==> res@.map_values(|x: String| x@).contains(
            filter_text("lastName"@, v@),
        ),
        params.keyword_title matches Some(v) ==> res@.map_values(|x: String| x@).contains(
            filter_text("title"@, v@),
        ),
        params.keyword_company matches Some(v) ==> res@.map_values(|x: String| x@).contains(
            filter_text("company"@, v@),
        ),
        params.keyword_school matches Some(v) ==> res@.map_values(|x: String| x@).contains(
            filter_text("school"@, v@),
        ),
{
    let filters = build_search_filters(params);
    proof {
        lemma_keywords_become_filters(*params);
        assert(filters@.map_values(|x: String| x@).len() == filters@.len());
        assert(filters@.map_values(|x: String| x@)[0] == filters@[0]@);
    }
    filters
}

fn build_search_filters(params: &SearchParams) -> (res: Vec<String>)
    ensures
        res@.map_values(|x: String| x@) == search_filters_spec(*params),
{
    let mut filters: Vec<String> = Vec::new();
    filters.push("(key:resultType,value:List(PEOPLE))".to_owned());
    push_optional_filter(&mut filters, "firstName", &params.keyword_first_name);
    push_optional_filter(&mut filters, "lastName", &params.keyword_last_name);
    push_optional_filter(&mut filters, "title", &params.keyword_title);
    push_optional_filter(&mut filters, "company", &params.keyword_company);
    push_optional_filter(&mut filters, "school", &params.keyword_school);
    match &params.countries {
        Some(c) => {
            let texts = country_strings(c);
            push_list_filter(&mut filters, "geoUrn", &texts);
        },
        None => {},
    }
    match &params.network_depth {
        Some(d) => {
            let texts = depth_strings(d);
            push_list_filter(&mut filters, "network", &texts);
        },
        None => {},
    }
    match &params.profile_language {
        Some(l) => {
            push_list_filter(&mut filters, "profileLanguage", l);
        },
        None => {},
    }
    assert(filters@.map_values(|x: String| x@) =~= search_filters_spec(*params));
    filters
}

/// The `queryParameters` value of a people search.
pub fn filter_params(params: &SearchParams) -> (res: String)
    ensures
        res@ == filter_params_spec(*params),
{
    let filters = search_filters(params);
    let mut out = "List(".to_owned();
    let list = join(&filters, ",");
    out.append(list.as_str());
    out.append(")");
    out
}

/// The address of the search result page starting at `offset`.
pub fn search_endpoint(offset: u16, encoded_keywords: &str, filter_params: &str) -> (res: String)
    ensures
        res@ == search_endpoint_spec(offset, encoded_keywords@, filter_params@),
{
    let mut out = VOYAGER_URL.to_owned();
    out.append("/graphql?variables=(start:");
    let start = decimal_string(offset as u64);
    out.append(start.as_str());
    out.append(",origin:GLOBAL_SEARCH_HEADER,query:(keywords:");
    out.append(encoded_keywords);
    out.append(",flagshipSearchIntent:SEARCH_SRP,queryParameters:");
    out.append(filter_params);
    out.append(
        ",includeFiltersInResponse:false))&queryId=voyagerSearchDashClusters.b0928897b71bd00a5a7291755dcd64f0",
    );
    out
}

/// A people search in progress: which page comes next, where to stop, and
/// what was collected so far.
pub struct PeopleSearch {
    filter_params: String,
    encoded_keywords: String,
    current_offset: u16,
    total_offset: u16,
    result: SearchResult,
}

impl PeopleSearch {
    /// The search's invariant: offsets step by whole pages, and the next
    /// step can never overflow.
    pub closed spec fn wf(&self) -> bool {
        &&& self.current_offset % 10 == 0
        &&& self.total_offset <= 65530
    }

    pub closed spec fn current_offset_spec(&self) -> u16 {
        self.current_offset
    }

    pub closed spec fn total_offset_spec(&self) -> u16 {
        self.total_offset
    }

    pub closed spec fn result_spec(&self) -> SearchResult {
        self.result
    }

    pub closed spec fn filter_params_view(&self) -> Seq<char> {
        self.filter_params@
    }

    pub closed spec fn encoded_keywords_view(&self) -> Seq<char> {
        self.encoded_keywords@
    }

    /// Whether another page is still to be fetched.
    pub open spec fn has_next_spec(&self) -> bool {
        self.current_offset_spec() < self.total_offset_spec()
    }

    /// Plans the search `params` asks for. The first page asked for starts at
    /// `page * 10`, the last one before `end * 10`. A start page after the
    /// end page is refused.
    pub fn start(params: SearchParams) -> (res: Result<PeopleSearch, CrawlerError>)
        requires
            params.page <= params.end ==> params.end * 10 <= u16::MAX,
        ensures
            params.page > params.end ==> (res matches Err(CrawlerError::SessionError(m))
                && m@ == "Start page cannot be greater than end page"@),
            params.page <= params.end ==> (res matches Ok(s) && {
                &&& s.wf()
                &&& s.current_offset_spec() == params.page * 10
                &&& s.total_offset_spec() == params.end * 10
                &&& s.filter_params_view() == filter_params_spec(params)
                &&& s.encoded_keywords_view() == percent_encoded(encode_utf8(keywords_spec(params)))
                &&& s.result_spec().elements@ == Seq::<SearchItem>::empty()
                &&& s.result_spec().request_metadata == params.request_metadata
                &&& s.result_spec().total == 0
                &&& s.result_spec().total_lookup == 0
            }),
    {
        if params.page > params.end {
            return Err(CrawlerError::SessionError("Start page cannot be greater than end page".to_owned()));
        }
        let filter_params = filter_params(&params);
        let encoded_keywords = match &params.keywords {
            Some(k) => url_encode(k.as_str()),
            None => url_encode(""),
        };
        proof {
            reveal_strlit("");
            assert((params.page * 10) % 10 == 0) by (nonlinear_arith);
            assert(params.end * 10 <= 65530) by (nonlinear_arith)
                requires params.end * 10 <= 65535;
            assert(params.page * 10 <= params.end * 10) by (nonlinear_arith)
                requires params.page <= params.end;
        }
        let current_offset: u16 = if params.page == 0 { 0 } else { params.page * ITEM_PER_PAGE };
        let total_offset: u16 = params.end * ITEM_PER_PAGE;
        let result = SearchResult {
            elements: Vec::new(),
            request_metadata: params.request_metadata,
            total: 0,
            total_lookup: 0,
        };
        Ok(PeopleSearch { filter_params, encoded_keywords, current_offset, total_offset, result })
    }

    /// Whether another page is still to be fetched.
    pub fn has_next(&self) -> (res: bool)
        ensures
            res == self.has_next_spec(),
    {
        self.current_offset < self.total_offset
    }

    /// The address of the next page to fetch, or `None` when the search is done.
    pub fn next_endpoint(&self) -> (res: Option<String>)
        ensures
            self.has_next_spec() ==> (res matches Some(e) && e@ == search_endpoint_spec(
                self.current_offset_spec(),
                self.encoded_keywords_view(),
                self.filter_params_view(),
            )),
            !self.has_next_spec() ==> res is None,
    {
        if self.current_offset < self.total_offset {
            Some(search_endpoint(self.current_offset, self.encoded_keywords.as_str(), self.filter_params.as_str()))
        } else {
            None
        }
    }

    /// Takes in the page fetched from `next_endpoint`: its people are added,
    /// the stopping point drops to the server's result count when that is
    /// smaller, and the offset moves one page on.
    pub fn absorb(&mut self, page: SearchResult)
        requires
            old(self).wf(),
            old(self).has_next_spec(),
        ensures
            final(self).wf(),
            final(self).current_offset_spec() == old(self).current_offset_spec() + 10,
            final(self).total_offset_spec() == if old(self).total_offset_spec() > page.total_lookup {
                page.total_lookup
            } else {
                old(self).total_offset_spec()
            },
            final(self).result_spec().elements@ == old(self).result_spec().elements@ + page.elements@,
            final(self).result_spec().total == page.total,
            final(self).result_spec().total_lookup == final(self).total_offset_spec(),
            final(self).result_spec().request_metadata == old(self).result_spec().request_metadata,
            final(self).filter_params_view() == old(self).filter_params_view(),
            final(self).encoded_keywords_view() == old(self).encoded_keywords_view(),
    {
        let mut elements = page.elements;
        self.result.elements.append(&mut elements);
        if self.total_offset > page.total_lookup {
            self.total_offset = page.total_lookup;
        }
        self.result.total = page.total;
        self.result.total_lookup = self.total_offset;
        self.current_offset = self.current_offset + ITEM_PER_PAGE;
    }

    /// The people collected, with the last page's totals.
    pub fn into_result(self) -> (res: SearchResult)
        ensures
            res == self.result_spec(),
    {
        self.result
    }
}

/// Law: every page taken in brings the search strictly closer to its end, so
/// repeating `next_endpoint` and `absorb` finishes after at most
/// `(end - page)` rounds.
pub proof fn lemma_search_progresses(before: PeopleSearch, after: PeopleSearch, page_total_lookup: u16)
    requires
        before.wf(),
        before.has_next_spec(),
        after.current_offset_spec() == before.current_offset_spec() + 10,
        after.total_offset_spec() == if before.total_offset_spec() > page_total_lookup {
            page_total_lookup
        } else {
            before.total_offset_spec()
        },
    ensures
        after.total_offset_spec() - after.current_offset_spec() < before.total_offset_spec()
            - before.current_offset_spec(),
        after.total_offset_spec() <= before.total_offset_spec(),
{
}

} // verus!
