//! Reading values out of the text of Sales Navigator pages.
use vstd::prelude::*;
use crate::outside::{regex_find, regex_find_first};
use crate::linkedin::profiles::{split_once_spec, Education, Experience, Interval, SearchResult, Skill};
use crate::text::{find_first, find_str, parse_u16, parse_u16_spec, remove_all, substring, without_all};

verus! {

/// The pattern of the number in an endorsements label.
pub const ENDORSEMENTS_PATTERN: &'static str = r"\d+";

/// The endorsement count for the number found in a label: the number when it
/// fits in 16 bits, otherwise zero.
pub fn endorsements_from_digits(found: &str) -> (res: u16)
    ensures
        res == match parse_u16_spec(found@) {
            Some(v) => v,
            None => 0u16,
        },
{
    match parse_u16(found) {
        Some(v) => v,
        None => 0,
    }
}

/// The endorsement count of a label such as "12 endorsements": the first
/// run of digits, read as a number (zero when it does not fit in 16 bits).
/// `None` when the label holds no digits.
pub fn parse_endorsements(text: &str) -> (res: Option<u16>)
    ensures
        match regex_find(ENDORSEMENTS_PATTERN@, text@) {
            Some(found) => res == Some(match parse_u16_spec(found) {
                Some(v) => v,
                None => 0u16,
            }),
            None => res is None,
        },
{
    match regex_find_first(ENDORSEMENTS_PATTERN, text) {
        Some(found) => Some(endorsements_from_digits(found.as_str())),
        None => None,
    }
}

/// The about text of an expanded section, without its "Show less" button label.
pub fn about_without_show_less(text: &str) -> (res: String)
    ensures
        res@ == without_all(text@, "Show less"@),
{
    proof {
        reveal_strlit("Show less");
    }
    remove_all(text, "Show less")
}

/// The address of a search entry: the page's domain followed by the link,
/// cut at its first comma.
pub open spec fn search_entry_url_spec(domain_url: Seq<char>, href: Seq<char>) -> Seq<char> {
    let full = domain_url + href;
    match find_first(full, ","@) {
        Some(k) => full.subrange(0, k),
        None => full,
    }
}

/// The address of a search entry: the page's domain followed by the link,
/// cut at its first comma.
pub fn search_entry_url(domain_url: &str, href: &str) -> (res: String)
    ensures
        res@ == search_entry_url_spec(domain_url@, href@),
{
    let mut full = domain_url.to_owned();
    full.append(href);
    proof {
        crate::text::lemma_find_from(full@, ","@, 0);
    }
    match find_str(full.as_str(), ",") {
        Some(k) => substring(full.as_str(), 0, k),
        None => full,
    }
}

/// The dash between the two ends of a period on a profile page.
pub const PERIOD_DELIMITER: &'static str = "–";

/// The period of an entry, split at its first dash.
pub open spec fn period_spec(time_text: Seq<char>) -> Option<(Seq<char>, Seq<char>)> {
    split_once_spec(time_text, PERIOD_DELIMITER@)
}

/// An interval holds exactly the given halves.
pub open spec fn interval_is(iv: Interval, halves: (Seq<char>, Seq<char>)) -> bool {
    iv.start@ == halves.0 && iv.end@ == halves.1
}

/// An experience entry from its job title and the text of its period.
/// `None` when the period holds no dash: the entry is then skipped.
pub fn experience_entry(position: String, time_text: &str) -> (res: Option<Experience>)
    ensures
        match period_spec(time_text@) {
            Some(halves) => res matches Some(e) && e.position@ == position@ && interval_is(e.interval, halves),
            None => res is None,
        },
{
    match Interval::from_str(time_text, PERIOD_DELIMITER) {
        Ok(interval) => Some(Experience { position, interval }),
        Err(_) => None,
    }
}

/// An education entry from the texts found on the page: a missing degree or
/// field is empty, a missing period is an empty interval. `None` when a
/// period is present but holds no dash.
pub fn education_entry(title: String, degree: Option<String>, field: Option<String>, timeline: Option<&str>) -> (res:
    Option<Education>)
    ensures
        match timeline {
            Some(t) => match period_spec(t@) {
                Some(halves) => res matches Some(e) && interval_is(e.interval, halves),
                None => res is None,
            },
            None => res matches Some(e) && e.interval.start@ == Seq::<char>::empty() && e.interval.end@
                == Seq::<char>::empty(),
        },
        res matches Some(e) ==> {
            &&& e.title@ == title@
            &&& e.degree@ == match degree {
                Some(d) => d@,
                None => Seq::<char>::empty(),
            }
            &&& e.field@ == match field {
                Some(f) => f@,
                None => Seq::<char>::empty(),
            }
        },
{
    let interval = match timeline {
        Some(t) => match Interval::from_str(t, PERIOD_DELIMITER) {
            Ok(iv) => iv,
            Err(_) => return None,
        },
        None => Interval { start: String::new(), end: String::new() },
    };
    let degree = match degree {
        Some(d) => d,
        None => String::new(),
    };
    let field = match field {
        Some(f) => f,
        None => String::new(),
    };
    Some(Education { title, degree, field, interval })
}

/// A skill entry from its name and, when the page shows one, its
/// endorsements label. Without a label the count is zero; `None` when the
/// label holds no digits.
pub fn skill_entry(name: String, endorsements_label: Option<&str>) -> (res: Option<Skill>)
    ensures
        match endorsements_label {
            None => res matches Some(s) && s.name@ == name@ && s.endorsements == 0,
            Some(label) => match regex_find(ENDORSEMENTS_PATTERN@, label@) {
                Some(found) => res matches Some(s) && s.name@ == name@ && s.endorsements == match parse_u16_spec(
                    found,
                ) {
                    Some(v) => v,
                    None => 0u16,
                },
                None => res is None,
            },
        },
{
    match endorsements_label {
        None => Some(Skill { name, endorsements: 0 }),
        Some(label) => match parse_endorsements(label) {
            Some(endorsements) => Some(Skill { name, endorsements }),
            None => None,
        },
    }
}

/// A search result from the person's name, the title (empty when the entry
/// shows none), and the link of the entry on the page of `domain_url`.
pub fn search_result_entry(name: String, title: Option<String>, domain_url: &str, href: &str) -> (res: SearchResult)
    ensures
        res.name@ == name@,
        res.title@ == match title {
            Some(t) => t@,
            None => Seq::<char>::empty(),
        },
        res.sales_url@ == search_entry_url_spec(domain_url@, href@),
{
    let sales_url = search_entry_url(domain_url, href);
    let title = match title {
        Some(t) => t,
        None => String::new(),
    };
    SearchResult { name, title, sales_url }
}

} // verus!
