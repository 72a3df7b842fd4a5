use omicron_crawler::errors::CrawlerError;
use omicron_crawler::linkedin::api::json::{GeoUrnMap, NetworkDepth, SearchItem, SearchParams, SearchResult};
use omicron_crawler::linkedin::api::search::{filter_params, search_endpoint, search_filters, PeopleSearch};

fn params(page: u16, end: u16) -> SearchParams {
    SearchParams {
        countries: None,
        keywords: None,
        keyword_first_name: None,
        keyword_last_name: None,
        keyword_title: None,
        keyword_company: None,
        keyword_school: None,
        profile_language: None,
        request_metadata: None,
        network_depth: None,
        page,
        end,
    }
}

fn item(first: &str) -> SearchItem {
    SearchItem {
        first_name: first.to_string(),
        last_name: "Novak".to_string(),
        subtitle: None,
        summary: None,
        url: format!("https://www.linkedin.com/in/{}", first),
        profile_urn: format!("urn-{}", first),
    }
}

fn page(items: Vec<SearchItem>, total_lookup: u16, total: u64) -> SearchResult {
    SearchResult { elements: items, request_metadata: None, total_lookup, total }
}

#[test]
fn search_filters_without_keywords_ask_for_people_only() {
    let filters = search_filters(&params(0, 1));
    assert_eq!(filters, vec!["(key:resultType,value:List(PEOPLE))".to_string()]);
}

#[test]
fn search_filters_follow_the_fixed_order() {
    let mut p = params(0, 1);
    p.keyword_school = Some("CVUT".to_string());
    p.keyword_first_name = Some("Jan".to_string());
    p.countries = Some(vec![GeoUrnMap::Slovakia, GeoUrnMap::Czechia]);
    p.network_depth = Some(vec![NetworkDepth::One, NetworkDepth::Two]);
    p.profile_language = Some(vec!["en".to_string(), "sk".to_string()]);
    let filters = search_filters(&p);
    assert_eq!(
        filters,
        vec![
            "(key:resultType,value:List(PEOPLE))".to_string(),
            "(key:firstName,value:List(Jan))".to_string(),
            "(key:school,value:List(CVUT))".to_string(),
            "(key:geoUrn,value:List(103119917,104508036))".to_string(),
            "(key:network,value:List(F,S))".to_string(),
            "(key:profileLanguage,value:List(en,sk))".to_string(),
        ]
    );
}

#[test]
fn filter_params_wraps_the_filters_in_a_list() {
    let mut p = params(0, 1);
    p.keyword_title = Some("CTO".to_string());
    assert_eq!(
        filter_params(&p),
        "List((key:resultType,value:List(PEOPLE)),(key:title,value:List(CTO)))"
    );
}

#[test]
fn search_endpoint_places_offset_keywords_and_filters() {
    let e = search_endpoint(20, "rust", "List(x)");
    assert_eq!(
        e,
        "https://www.linkedin.com/voyager/api/graphql?variables=(start:20,origin:GLOBAL_SEARCH_HEADER,query:(keywords:rust,flagshipSearchIntent:SEARCH_SRP,queryParameters:List(x),includeFiltersInResponse:false))&queryId=voyagerSearchDashClusters.b0928897b71bd00a5a7291755dcd64f0"
    );
}

#[test]
fn start_page_after_end_page_is_refused() {
    match PeopleSearch::start(params(3, 2)) {
        Err(CrawlerError::SessionError(m)) => assert_eq!(m, "Start page cannot be greater than end page"),
        _ => panic!("expected a session error"),
    }
}

#[test]
fn equal_start_and_end_pages_fetch_nothing() {
    let search = PeopleSearch::start(params(2, 2)).ok().unwrap();
    assert!(!search.has_next());
    assert!(search.next_endpoint().is_none());
}

#[test]
fn first_endpoint_starts_at_page_times_ten_with_encoded_keywords() {
    let mut p = params(1, 3);
    p.keywords = Some("rust dev".to_string());
    let search = PeopleSearch::start(p).ok().unwrap();
    let e = search.next_endpoint().unwrap();
    assert!(e.contains("(start:10,"));
    assert!(e.contains("keywords:rust%20dev,"));
    assert!(e.contains("queryParameters:List((key:resultType,value:List(PEOPLE))),"));
}

#[test]
fn search_stops_early_when_the_server_has_fewer_results() {
    let mut p = params(0, 5);
    p.request_metadata = Some("meta".to_string());
    let mut search = PeopleSearch::start(p).ok().unwrap();
    assert!(search.next_endpoint().unwrap().contains("(start:0,"));
    search.absorb(page(vec![item("a"), item("b")], 15, 15));
    assert!(search.has_next());
    assert!(search.next_endpoint().unwrap().contains("(start:10,"));
    search.absorb(page(vec![item("c")], 15, 15));
    assert!(!search.has_next());
    let result = search.into_result();
    assert_eq!(result.elements.len(), 3);
    assert_eq!(result.elements[2].first_name, "c");
    assert_eq!(result.total, 15);
    assert_eq!(result.total_lookup, 15);
    assert_eq!(result.request_metadata, Some("meta".to_string()));
}

#[test]
fn each_absorbed_page_brings_the_search_closer_to_its_end() {
    let mut search = PeopleSearch::start(params(0, 3)).ok().unwrap();
    let mut rounds = 0;
    while search.has_next() {
        search.absorb(page(vec![], 1000, 0));
        rounds += 1;
        assert!(rounds <= 3);
    }
    assert_eq!(rounds, 3);
}
