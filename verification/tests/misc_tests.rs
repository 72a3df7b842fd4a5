use omicron_crawler::api_client::ApiClient;
use omicron_crawler::errors::{ClientError, IoError};
use omicron_crawler::linkedin::api::json::{profile_picture_url, GeoUrnMap, NetworkDepth, SearchParams};
use omicron_crawler::linkedin::api::results::{search_items_from_entities, SearchElement, SearchEntity, SearchItemError};
use omicron_crawler::linkedin::api::json::{SearchItem, SearchResult};
use omicron_crawler::linkedin::api::tracking_client::{
    create_default_headers, default_li_user_agent, default_requested_with, default_user_agent,
    default_webview_user_agent, is_valid_header_value, new_native_tracking_headers, new_webview_tracking_headers,
};
use omicron_crawler::linkedin::enums::SeniorityLevel;
use omicron_crawler::linkedin::utils::{cookies_session_id, format_jsessionid, generate_jsessionid};
use omicron_crawler::linkedin::web_driver::linkedin::{
    results_page_query, results_page_url, scans_left_after, ResultsPaging, PAGE_SCANS,
};
use omicron_crawler::utils::generate_random_string;

fn entity(title: &str, urn: &str) -> SearchEntity {
    SearchEntity {
        title: title.to_string(),
        primary_subtitle: Some("CTO".to_string()),
        summary: None,
        navigation_url: "https://www.linkedin.com/in/x".to_string(),
        entity_urn: urn.to_string(),
    }
}

#[test]
fn error_texts_name_their_variant() {
    assert_eq!(ClientError::UrlError("u".to_string()).to_display_string(), "UrlError: u");
    assert_eq!(ClientError::CookieError("c".to_string()).to_display_string(), "CookieError: c");
    assert_eq!(
        ClientError::IoError(IoError::FileError("f".to_string())).to_display_string(),
        "IoError: FileError: f"
    );
    assert_eq!(IoError::ParseError("p".to_string()).to_display_string(), "ParseError: p");
}

#[test]
fn jsessionid_is_ajax_and_nineteen_digits() {
    assert_eq!(format_jsessionid(42), "ajax:0000000000000000042");
    assert_eq!(format_jsessionid(u64::MAX), "ajax:18446744073709551615");
    let id = generate_jsessionid();
    assert!(id.len() == 24 || id.len() == 25);
    assert!(id.starts_with("ajax:"));
    assert!(id[5..].chars().all(|c| c.is_ascii_digit()));
}

#[test]
fn session_id_is_read_from_the_cookie_header() {
    assert_eq!(cookies_session_id("a=1; JSESSIONID=\"ajax:77\"; b=2"), Some("ajax:77".to_string()));
    assert_eq!(cookies_session_id("JSESSIONID=\"ajax:5\""), Some("ajax:5".to_string()));
    assert_eq!(cookies_session_id("JSESSIONID=ajax:5;"), None);
}

#[test]
fn random_strings_have_the_asked_length() {
    let s = generate_random_string(16);
    assert_eq!(s.len(), 16);
    assert!(s.chars().all(|c| c.is_ascii_alphanumeric()));
    assert_eq!(generate_random_string(0), "");
}

#[test]
fn header_sets() {
    let h = create_default_headers(None);
    assert_eq!(h.len(), 5);
    assert_eq!(h[1], ("User-Agent".to_string(), "ANDROID OS".to_string()));
    let h = create_default_headers(Some("tok"));
    assert_eq!(h[5], ("csrf-token".to_string(), "tok".to_string()));
    let w = new_webview_tracking_headers(default_webview_user_agent(), default_requested_with());
    assert_eq!(w.len(), 7);
    assert_eq!(w[1], ("x-requested-with".to_string(), default_requested_with().to_string()));
    let n = new_native_tracking_headers("ajax:1", "dev-1", "{}", default_user_agent(), default_li_user_agent());
    assert_eq!(n.len(), 8);
    assert_eq!(n[4], ("csrf-token".to_string(), "ajax:1".to_string()));
    assert_eq!(n[2], ("x-udid".to_string(), "dev-1".to_string()));
    assert!(is_valid_header_value("fine value"));
    assert!(!is_valid_header_value("line\nbreak"));
}

#[test]
fn countries_and_depths() {
    assert_eq!(GeoUrnMap::Slovakia.urn(), 103119917);
    assert_eq!(GeoUrnMap::Czechia.to_display_string(), "104508036");
    assert!(matches!(GeoUrnMap::from_name("slovakia"), Some(GeoUrnMap::Slovakia)));
    assert!(GeoUrnMap::from_name("Slovakia").is_none());
    assert_eq!(NetworkDepth::Three.to_display_string(), "O");
    assert!(matches!(NetworkDepth::from_name("two"), Some(NetworkDepth::Two)));
    assert_eq!(SeniorityLevel::VicePresident.label(), "Vice President");
}

#[test]
fn search_params_log_line() {
    let p = SearchParams {
        countries: Some(vec![GeoUrnMap::Czechia]),
        keywords: Some("rust".to_string()),
        keyword_first_name: Some("Jan".to_string()),
        keyword_last_name: None,
        keyword_title: None,
        keyword_company: None,
        keyword_school: None,
        profile_language: None,
        request_metadata: None,
        network_depth: Some(vec![NetworkDepth::One]),
        page: 1,
        end: 3,
    };
    assert_eq!(
        p.to_display_string(),
        "keywords: rust, page: 1, end: 3keyword_first_name: Jan, countries: 104508036, network_depth: F, "
    );
}

#[test]
fn picture_url_joins_root_and_first_artifact() {
    let segs = vec!["a.jpg".to_string(), "b.jpg".to_string()];
    assert_eq!(profile_picture_url("https://media/", &segs), "https://media/a.jpg");
}

#[test]
fn search_entities_become_items() {
    let items = search_items_from_entities(vec![
        Some(entity("Jan Novak CSc", "urn:li:fsd_entityResultViewModel:(urn:li:fsd_profile:ACoAA1,SEARCH_SRP,DEFAULT)")),
        Some(entity("No Profile", "urn:li:company:1")),
    ])
    .ok()
    .unwrap();
    assert_eq!(items.len(), 1);
    assert_eq!(items[0].first_name, "Jan");
    assert_eq!(items[0].last_name, "Novak");
    assert_eq!(items[0].profile_urn, "ACoAA1");
    assert_eq!(items[0].subtitle, Some("CTO".to_string()));
    let failed = search_items_from_entities(vec![None]);
    assert!(matches!(failed, Err(SearchItemError::NoEntityResult)));
}

#[test]
fn result_page_keeps_the_last_people_list() {
    let person = SearchItem {
        first_name: "A".to_string(),
        last_name: "B".to_string(),
        subtitle: None,
        summary: None,
        url: "u".to_string(),
        profile_urn: "p".to_string(),
    };
    let r = SearchResult::from_clusters(vec![SearchElement::MetaItem(vec![]), SearchElement::MetaItem(vec![person]), SearchElement::Other], 42, 40);
    assert_eq!(r.elements.len(), 1);
    assert_eq!(r.total, 42);
    assert_eq!(r.total_lookup, 40);
    let empty = SearchResult::from_clusters(vec![], 42, 40);
    assert_eq!(empty.total, 0);
    assert_eq!(empty.total_lookup, 0);
}

#[test]
fn results_page_query_replaces_or_adds_the_page() {
    let pairs = vec![("keywords".to_string(), "rust".to_string()), ("page".to_string(), "1".to_string())];
    assert_eq!(results_page_query(&pairs, 3), "keywords=rust&page=3");
    let pairs = vec![("keywords".to_string(), "rust".to_string())];
    assert_eq!(results_page_query(&pairs, 2), "keywords=rust&page=2");
    assert_eq!(results_page_query(&vec![], 4), "page=4");
}

#[test]
fn api_client_holds_its_three_clients() {
    let c = ApiClient::new(1u8, "azure", 'c');
    assert_eq!(c.linkedin_client, 1);
    assert_eq!(c.azure_client, "azure");
    assert_eq!(c.two_captcha_client, 'c');
}

#[test]
fn a_page_is_scanned_again_only_while_nothing_was_read() {
    assert_eq!(scans_left_after(PAGE_SCANS, true), 0);
    assert_eq!(scans_left_after(PAGE_SCANS, false), 4);
    assert_eq!(scans_left_after(1, false), 0);
    let mut left = PAGE_SCANS;
    let mut scans = 0;
    while left != 0 {
        left = scans_left_after(left, false);
        scans += 1;
    }
    assert_eq!(scans, 5);
}

#[test]
fn results_page_url_replaces_the_page_of_the_address() {
    assert_eq!(
        results_page_url("https://www.linkedin.com/search/results/people/?keywords=rust&page=1", 3),
        Some("https://www.linkedin.com/search/results/people/?keywords=rust&page=3".to_string())
    );
}

#[test]
fn results_page_url_adds_a_page_and_reencodes_the_query() {
    assert_eq!(
        results_page_url("https://www.linkedin.com/search/results/people/?keywords=a%20b", 2),
        Some("https://www.linkedin.com/search/results/people/?keywords=a%20b&page=2".to_string())
    );
    assert_eq!(
        results_page_url("https://www.linkedin.com/search/results/people/", 4),
        Some("https://www.linkedin.com/search/results/people/?page=4".to_string())
    );
}

#[test]
fn results_page_url_refuses_text_that_is_no_address() {
    assert_eq!(results_page_url("not an address", 2), None);
}

#[test]
fn paging_loads_pages_two_to_the_last_in_turn() {
    let mut paging = ResultsPaging::start(3);
    assert_eq!(paging.next_page(), Some(2));
    assert_eq!(paging.scans_left, PAGE_SCANS);
    paging.record_scan(false);
    assert_eq!(paging.scans_left, PAGE_SCANS - 1);
    paging.record_scan(true);
    assert_eq!(paging.scans_left, 0);
    assert_eq!(paging.next_page(), Some(3));
    paging.record_scan(true);
    assert_eq!(paging.next_page(), None);
    assert_eq!(paging.next_page(), None);
}

#[test]
fn paging_of_one_page_loads_nothing_more() {
    let mut paging = ResultsPaging::start(1);
    assert_eq!(paging.next_page(), None);
    let mut paging = ResultsPaging::start(0);
    assert_eq!(paging.next_page(), None);
}
