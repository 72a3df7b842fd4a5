use omicron_crawler::linkedin::web_driver::sales::{
    about_without_show_less, education_entry, endorsements_from_digits, experience_entry, parse_endorsements,
    search_entry_url, search_result_entry, skill_entry,
};

#[test]
fn endorsements_read_the_first_number() {
    assert_eq!(parse_endorsements("12 endorsements"), Some(12));
    assert_eq!(parse_endorsements("Endorsed by 7 people, 3 colleagues"), Some(7));
}

#[test]
fn endorsements_too_large_for_16_bits_count_as_zero() {
    assert_eq!(parse_endorsements("70000 endorsements"), Some(0));
    assert_eq!(endorsements_from_digits("65535"), 65535);
    assert_eq!(endorsements_from_digits("65536"), 0);
}

#[test]
fn endorsements_label_without_digits_gives_nothing() {
    assert_eq!(parse_endorsements("no endorsements yet"), None);
}

#[test]
fn about_text_loses_its_show_less_label() {
    assert_eq!(about_without_show_less("I build things.Show less"), "I build things.");
    assert_eq!(about_without_show_less("Show lessA Show less B"), "A  B");
    assert_eq!(about_without_show_less("plain"), "plain");
}

#[test]
fn search_entry_url_is_cut_at_the_first_comma() {
    assert_eq!(
        search_entry_url("https://www.linkedin.com", "/sales/lead/ACw,NAME_SEARCH,x"),
        "https://www.linkedin.com/sales/lead/ACw"
    );
    assert_eq!(search_entry_url("https://a", "/b"), "https://a/b");
}

#[test]
fn search_result_entry_combines_name_title_and_url() {
    let r = search_result_entry("Jan Novak".to_string(), Some("CTO".to_string()), "https://d", "/lead/1,2");
    assert_eq!(r.name, "Jan Novak");
    assert_eq!(r.title, "CTO");
    assert_eq!(r.sales_url, "https://d/lead/1");
}

#[test]
fn search_result_entry_without_a_title_has_an_empty_one() {
    let r = search_result_entry(
        "Jane Doe".to_string(),
        None,
        "https://www.linkedin.com",
        "/sales/lead/ACwAA1,NAME_SEARCH,xY",
    );
    assert_eq!(r.name, "Jane Doe");
    assert_eq!(r.title, "");
    assert_eq!(r.sales_url, "https://www.linkedin.com/sales/lead/ACwAA1");
}

#[test]
fn experience_entry_splits_its_period_at_the_dash() {
    let e = experience_entry("Developer".to_string(), "Jan 2020 – Present").unwrap();
    assert_eq!(e.position, "Developer");
    assert_eq!(e.interval.start, "Jan 2020 ");
    assert_eq!(e.interval.end, " Present");
    assert!(experience_entry("Developer".to_string(), "2 yrs").is_none());
}

#[test]
fn education_entry_fills_in_missing_parts() {
    let e = education_entry("CVUT".to_string(), None, Some("CS".to_string()), None).unwrap();
    assert_eq!(e.title, "CVUT");
    assert_eq!(e.degree, "");
    assert_eq!(e.field, "CS");
    assert_eq!(e.interval.start, "");
    assert_eq!(e.interval.end, "");
    let e = education_entry("STU".to_string(), Some("MSc".to_string()), None, Some("2010 – 2015")).unwrap();
    assert_eq!(e.degree, "MSc");
    assert_eq!(e.field, "");
    assert_eq!(e.interval.start, "2010 ");
    assert_eq!(e.interval.end, " 2015");
    assert!(education_entry("STU".to_string(), None, None, Some("2015")).is_none());
}

#[test]
fn skill_entry_counts_endorsements_when_labelled() {
    let s = skill_entry("Rust".to_string(), None).unwrap();
    assert_eq!(s.name, "Rust");
    assert_eq!(s.endorsements, 0);
    let s = skill_entry("Go".to_string(), Some("99+ endorsements")).unwrap();
    assert_eq!(s.endorsements, 99);
    assert!(skill_entry("C".to_string(), Some("endorsed")).is_none());
}
