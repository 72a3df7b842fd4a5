//! The profile data gathered by the browser-driven crawler.
use vstd::prelude::*;
use crate::outside::{debug_str, debug_str_text};
use crate::text::{decimal, decimal_string, find_first, find_str, substring};

verus! {

/// A person found by a Sales Navigator search.
pub struct SearchResult {
    pub name: String,
    pub title: String,
    pub sales_url: String,
}

/// A profile as read from its Sales Navigator page.
pub struct Profile {
    pub name: String,
    pub url: String,
    pub profile_picture_url: String,
    pub description: String,
    pub about: Option<String>,
    pub location: String,
    pub experience: Option<Vec<Experience>>,
    pub education: Option<Vec<Education>>,
    pub skills: Option<Vec<Skill>>,
    pub languages: Option<Vec<Language>>,
}

pub struct Experience {
    pub position: String,
    pub interval: Interval,
}

pub struct Education {
    pub title: String,
    pub field: String,
    pub degree: String,
    pub interval: Interval,
}

pub struct Language {
    pub language: String,
    pub fluency: String,
}

pub struct Skill {
    pub name: String,
    pub endorsements: u16,
}

/// A period such as "Jan 2020 – Present", kept as its two halves.
pub struct Interval {
    pub start: String,
    pub end: String,
}

impl Interval {
    /// Splits `s` at the first occurrence of `delimiter`.
    pub fn from_str(s: &str, delimiter: &str) -> (res: Result<Interval, &'static str>)
        ensures
            match find_first(s@, delimiter@) {
                Some(k) => res matches Ok(iv) && iv.start@ == s@.subrange(0, k)
                    && iv.end@ == s@.subrange(k + delimiter@.len(), s@.len() as int),
                None => res matches Err(msg) && msg@ == "failed to find delimiter"@,
            },
    {
        proof {
            crate::text::lemma_find_from(s@, delimiter@, 0);
        }
        match find_str(s, delimiter) {
            Some(k) => {
                let m = delimiter.unicode_len();
                let n = s.unicode_len();
                Ok(Interval { start: substring(s, 0, k), end: substring(s, k + m, n) })
            },
            None => Err("failed to find delimiter"),
        }
    }
}

/// The two halves of `s` around the first occurrence of `delimiter`, if any.
pub open spec fn split_once_spec(s: Seq<char>, delimiter: Seq<char>) -> Option<(Seq<char>, Seq<char>)> {
    match find_first(s, delimiter) {
        Some(k) => Some((s.subrange(0, k), s.subrange(k + delimiter.len(), s.len() as int))),
        None => None,
    }
}

/// Law: the two halves of a split, with the delimiter put back between
/// them, are the text that was split.
pub proof fn lemma_split_once_rejoins(s: Seq<char>, delimiter: Seq<char>)
    requires
        split_once_spec(s, delimiter) is Some,
    ensures
        split_once_spec(s, delimiter).unwrap().0 + delimiter + split_once_spec(s, delimiter).unwrap().1 == s,
{
    crate::text::lemma_find_from(s, delimiter, 0);
    let k = find_first(s, delimiter).unwrap();
    assert(s.subrange(k, k + delimiter.len()) == delimiter);
    assert(s =~= s.subrange(0, k) + delimiter + s.subrange(k + delimiter.len(), s.len() as int));
}

pub open spec fn search_result_text(r: SearchResult) -> Seq<char> {
    "name: "@ + r.name@ + " title: "@ + r.title@ + " url: "@ + r.sales_url@
}

pub open spec fn interval_text(iv: Interval) -> Seq<char> {
    "start: "@ + iv.start@ + " end: "@ + iv.end@
}

/// The `Debug` form of an interval: `Interval { start: "..", end: ".." }`.
pub open spec fn interval_debug_text(iv: Interval) -> Seq<char> {
    "Interval { start: "@ + debug_str_text(iv.start@) + ", end: "@ + debug_str_text(iv.end@) + " }"@
}

pub open spec fn experience_text(e: Experience) -> Seq<char> {
    "title: "@ + e.position@ + " "@ + interval_text(e.interval)
}

pub open spec fn education_text(e: Education) -> Seq<char> {
    "title: "@ + e.title@ + "\ndegree: "@ + e.degree@ + "\nduration: "@ + interval_debug_text(e.interval)
}

pub open spec fn language_text(l: Language) -> Seq<char> {
    "language: "@ + l.language@ + " fluency: "@ + l.fluency@
}

pub open spec fn skill_text(s: Skill) -> Seq<char> {
    "skill: "@ + s.name@ + " endorsements: "@ + decimal(s.endorsements as nat)
}

/// The items' texts, each followed by a newline.
pub open spec fn lines_of(items: Seq<Seq<char>>) -> Seq<char>
    decreases items.len(),
{
    if items.len() == 0 {
        Seq::empty()
    } else {
        lines_of(items.drop_last()) + items.last() + "\n"@
    }
}

/// A section heading followed by one line per item, when the list is present.
pub open spec fn section(heading: Seq<char>, items: Option<Seq<Seq<char>>>) -> Seq<char> {
    match items {
        Some(v) => heading + lines_of(v),
        None => Seq::empty(),
    }
}

pub open spec fn profile_header_text(p: Profile) -> Seq<char> {
    "name: "@ + p.name@ + "\nurl: "@ + p.url@ + "\ndescription: "@ + p.description@
        + "\nlocation: "@ + p.location@ + "\nprofile picture: "@ + p.profile_picture_url@ + "\n"@
}

pub open spec fn about_text(about: Option<String>) -> Seq<char> {
    match about {
        Some(a) => "About: "@ + a@ + "\n"@,
        None => Seq::empty(),
    }
}

pub open spec fn experience_section(items: Option<Vec<Experience>>) -> Seq<char> {
    section("Experience:\n"@, match items {
        Some(v) => Some(v@.map_values(|e: Experience| experience_text(e))),
        None => None,
    })
}

pub open spec fn education_section(items: Option<Vec<Education>>) -> Seq<char> {
    section("Education:\n"@, match items {
        Some(v) => Some(v@.map_values(|e: Education| education_text(e))),
        None => None,
    })
}

pub open spec fn skills_section(items: Option<Vec<Skill>>) -> Seq<char> {
    section("Skills:\n"@, match items {
        Some(v) => Some(v@.map_values(|e: Skill| skill_text(e))),
        None => None,
    })
}

pub open spec fn languages_section(items: Option<Vec<Language>>) -> Seq<char> {
    section("Languages:\n"@, match items {
        Some(v) => Some(v@.map_values(|e: Language| language_text(e))),
        None => None,
    })
}

/// How a profile is printed: its basic fields, the about text, then each
/// section that is present with one line per entry.
pub open spec fn profile_text(p: Profile) -> Seq<char> {
    profile_header_text(p) + about_text(p.about) + experience_section(p.experience) + education_section(
        p.education,
    ) + skills_section(p.skills) + languages_section(p.languages)
}

impl SearchResult {
    pub fn to_display_string(&self) -> (res: String)
        ensures
            res@ == search_result_text(*self),
    {
        let mut out = "name: ".to_owned();
        out.append(self.name.as_str());
        out.append(" title: ");
        out.append(self.title.as_str());
        out.append(" url: ");
        out.append(self.sales_url.as_str());
        out
    }
}

impl Interval {
    pub fn to_display_string(&self) -> (res: String)
        ensures
            res@ == interval_text(*self),
    {
        let mut out = "start: ".to_owned();
        out.append(self.start.as_str());
        out.append(" end: ");
        out.append(self.end.as_str());
        out
    }

    /// The interval as `{:?}` writes it.
    pub fn to_debug_string(&self) -> (res: String)
        ensures
            res@ == interval_debug_text(*self),
    {
        let mut out = "Interval { start: ".to_owned();
        let start = debug_str(self.start.as_str());
        out.append(start.as_str());
        out.append(", end: ");
        let end = debug_str(self.end.as_str());
        out.append(end.as_str());
        out.append(" }");
        out
    }
}

impl Experience {
    pub fn to_display_string(&self) -> (res: String)
        ensures
            res@ == experience_text(*self),
    {
        let mut out = "title: ".to_owned();
        out.append(self.position.as_str());
        out.append(" ");
        let iv = self.interval.to_display_string();
        out.append(iv.as_str());
        out
    }
}

impl Education {
    pub fn to_display_string(&self) -> (res: String)
        ensures
            res@ == education_text(*self),
    {
        let mut out = "title: ".to_owned();
        out.append(self.title.as_str());
        out.append("\ndegree: ");
        out.append(self.degree.as_str());
        out.append("\nduration: ");
        let iv = self.interval.to_debug_string();
        out.append(iv.as_str());
        out
    }
}

impl Language {
    pub fn to_display_string(&self) -> (res: String)
        ensures
            res@ == language_text(*self),
    {
        let mut out = "language: ".to_owned();
        out.append(self.language.as_str());
        out.append(" fluency: ");
        out.append(self.fluency.as_str());
        out
    }
}

impl Skill {
    pub fn to_display_string(&self) -> (res: String)
        ensures
            res@ == skill_text(*self),
    {
        let mut out = "skill: ".to_owned();
        out.append(self.name.as_str());
        out.append(" endorsements: ");
        let n = decimal_string(self.endorsements as u64);
        out.append(n.as_str());
        out
    }
}

fn append_experience_lines(out: &mut String, items: &Vec<Experience>)
    ensures
        final(out)@ == old(out)@ + lines_of(items@.map_values(|e: Experience| experience_text(e))),
{
    let ghost texts = items@.map_values(|e: Experience| experience_text(e));
    let mut i: usize = 0;
    while i < items.len()
        invariant
            i <= items.len(),
            texts == items@.map_values(|e: Experience| experience_text(e)),
            out@ == old(out)@ + lines_of(texts.subrange(0, i as int)),
        decreases items.len() - i,
    {
        let t = items[i].to_display_string();
        out.append(t.as_str());
        out.append("\n");
        assert(texts.subrange(0, i + 1).drop_last() =~= texts.subrange(0, i as int));
        i = i + 1;
    }
    assert(texts.subrange(0, items.len() as int) =~= texts);
}

fn append_education_lines(out: &mut String, items: &Vec<Education>)
    ensures
        final(out)@ == old(out)@ + lines_of(items@.map_values(|e: Education| education_text(e))),
{
    let ghost texts = items@.map_values(|e: Education| education_text(e));
    let mut i: usize = 0;
    while i < items.len()
        invariant
            i <= items.len(),
            texts == items@.map_values(|e: Education| education_text(e)),
            out@ == old(out)@ + lines_of(texts.subrange(0, i as int)),
        decreases items.len() - i,
    {
        let t = items[i].to_display_string();
        out.append(t.as_str());
        out.append("\n");
        assert(texts.subrange(0, i + 1).drop_last() =~= texts.subrange(0, i as int));
        i = i + 1;
    }
    assert(texts.subrange(0, items.len() as int) =~= texts);
}

fn append_skill_lines(out: &mut String, items: &Vec<Skill>)
    ensures
        final(out)@ == old(out)@ + lines_of(items@.map_values(|e: Skill| skill_text(e))),
{
    let ghost texts = items@.map_values(|e: Skill| skill_text(e));
    let mut i: usize = 0;
    while i < items.len()
        invariant
            i <= items.len(),
            texts == items@.map_values(|e: Skill| skill_text(e)),
            out@ == old(out)@ + lines_of(texts.subrange(0, i as int)),
        decreases items.len() - i,
    {
        let t = items[i].to_display_string();
        out.append(t.as_str());
        out.append("\n");
        assert(texts.subrange(0, i + 1).drop_last() =~= texts.subrange(0, i as int));
        i = i + 1;
    }
    assert(texts.subrange(0, items.len() as int) =~= texts);
}

fn append_language_lines(out: &mut String, items: &Vec<Language>)
    ensures
        final(out)@ == old(out)@ + lines_of(items@.map_values(|e: Language| language_text(e))),
{
    let ghost texts = items@.map_values(|e: Language| language_text(e));
    let mut i: usize = 0;
    while i < items.len()
        invariant
            i <= items.len(),
            texts == items@.map_values(|e: Language| language_text(e)),
            out@ == old(out)@ + lines_of(texts.subrange(0, i as int)),
        decreases items.len() - i,
    {
        let t = items[i].to_display_string();
        out.append(t.as_str());
        out.append("\n");
        assert(texts.subrange(0, i + 1).drop_last() =~= texts.subrange(0, i as int));
        i = i + 1;
    }
    assert(texts.subrange(0, items.len() as int) =~= texts);
}

fn append_about(out: &mut String, about: &Option<String>)
    ensures
        final(out)@ == old(out)@ + about_text(*about),
{
    match about {
        Some(a) => {
            out.append("About: ");
            out.append(a.as_str());
            out.append("\n");
        },
        None => {},
    }
    assert(out@ =~= old(out)@ + about_text(*about));
}

fn append_experience_section(out: &mut String, items: &Option<Vec<Experience>>)
    ensures
        final(out)@ == old(out)@ + experience_section(*items),
{
    match items {
        Some(v) => {
            out.append("Experience:\n");
            append_experience_lines(out, v);
        },
        None => {},
    }
    assert(out@ =~= old(out)@ + experience_section(*items));
}

fn append_education_section(out: &mut String, items: &Option<Vec<Education>>)
    ensures
        final(out)@ == old(out)@ + education_section(*items),
{
    match items {
        Some(v) => {
            out.append("Education:\n");
            append_education_lines(out, v);
        },
        None => {},
    }
    assert(out@ =~= old(out)@ + education_section(*items));
}

fn append_skills_section(out: &mut String, items: &Option<Vec<Skill>>)
    ensures
        final(out)@ == old(out)@ + skills_section(*items),
{
    match items {
        Some(v) => {
            out.append("Skills:\n");
            append_skill_lines(out, v);
        },
        None => {},
    }
    assert(out@ =~= old(out)@ + skills_section(*items));
}

fn append_languages_section(out: &mut String, items: &Option<Vec<Language>>)
    ensures
        final(out)@ == old(out)@ + languages_section(*items),
{
    match items {
        Some(v) => {
            out.append("Languages:\n");
            append_language_lines(out, v);
        },
        None => {},
    }
    assert(out@ =~= old(out)@ + languages_section(*items));
}

impl Profile {
    /// The profile as the crawler prints it: the basic fields, then the
    /// about text and each present section, one line per entry.
    pub fn to_display_string(&self) -> (res: String)
        ensures
            res@ == profile_text(*self),
    {
        let mut out = "name: ".to_owned();
        out.append(self.name.as_str());
        out.append("\nurl: ");
        out.append(self.url.as_str());
        out.append("\ndescription: ");
        out.append(self.description.as_str());
        out.append("\nlocation: ");
        out.append(self.location.as_str());
        out.append("\nprofile picture: ");
        out.append(self.profile_picture_url.as_str());
        out.append("\n");
        append_about(&mut out, &self.about);
        append_experience_section(&mut out, &self.experience);
        append_education_section(&mut out, &self.education);
        append_skills_section(&mut out, &self.skills);
        append_languages_section(&mut out, &self.languages);
        out
    }
}

} // verus!
