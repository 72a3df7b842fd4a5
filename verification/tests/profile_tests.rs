use omicron_crawler::linkedin::profiles::{Education, Experience, Interval, Language, Profile, SearchResult, Skill};

fn interval(start: &str, end: &str) -> Interval {
    Interval { start: start.to_string(), end: end.to_string() }
}

#[test]
fn interval_splits_at_the_first_delimiter() {
    let iv = Interval::from_str("Jan 2020 – Present", "–").ok().unwrap();
    assert_eq!(iv.start, "Jan 2020 ");
    assert_eq!(iv.end, " Present");
    let iv = Interval::from_str("a-b-c", "-").ok().unwrap();
    assert_eq!(iv.start, "a");
    assert_eq!(iv.end, "b-c");
}

#[test]
fn interval_without_delimiter_is_an_error() {
    match Interval::from_str("2020", "–") {
        Err(m) => assert_eq!(m, "failed to find delimiter"),
        Ok(_) => panic!("expected an error"),
    }
}

#[test]
fn interval_display_and_debug_forms() {
    let iv = interval("2019", "2021");
    assert_eq!(iv.to_display_string(), "start: 2019 end: 2021");
    assert_eq!(iv.to_debug_string(), "Interval { start: \"2019\", end: \"2021\" }");
    let quoted = interval("a\"b", "");
    assert_eq!(quoted.to_debug_string(), "Interval { start: \"a\\\"b\", end: \"\" }");
}

#[test]
fn entries_are_displayed_with_their_labels() {
    let r = SearchResult { name: "Jan".to_string(), title: "CTO".to_string(), sales_url: "u".to_string() };
    assert_eq!(r.to_display_string(), "name: Jan title: CTO url: u");
    let e = Experience { position: "Dev".to_string(), interval: interval("2019", "2021") };
    assert_eq!(e.to_display_string(), "title: Dev start: 2019 end: 2021");
    let ed = Education {
        title: "CVUT".to_string(),
        field: "CS".to_string(),
        degree: "MSc".to_string(),
        interval: interval("2010", "2015"),
    };
    assert_eq!(
        ed.to_display_string(),
        "title: CVUT\ndegree: MSc\nduration: Interval { start: \"2010\", end: \"2015\" }"
    );
    let l = Language { language: "Slovak".to_string(), fluency: "Native".to_string() };
    assert_eq!(l.to_display_string(), "language: Slovak fluency: Native");
    let s = Skill { name: "Rust".to_string(), endorsements: 42 };
    assert_eq!(s.to_display_string(), "skill: Rust endorsements: 42");
}

#[test]
fn profile_prints_only_the_sections_it_has() {
    let p = Profile {
        name: "Jan".to_string(),
        url: "https://l/in/jan".to_string(),
        profile_picture_url: "pic".to_string(),
        description: "Engineer".to_string(),
        about: Some("Hi".to_string()),
        location: "Bratislava".to_string(),
        experience: Some(vec![Experience { position: "Dev".to_string(), interval: interval("a", "b") }]),
        education: None,
        skills: Some(vec![]),
        languages: None,
    };
    assert_eq!(
        p.to_display_string(),
        "name: Jan\nurl: https://l/in/jan\ndescription: Engineer\nlocation: Bratislava\nprofile picture: pic\nAbout: Hi\nExperience:\ntitle: Dev start: a end: b\nSkills:\n"
    );
}
