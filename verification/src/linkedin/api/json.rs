//! The data exchanged with the LinkedIn Voyager API.
use vstd::prelude::*;
use crate::text::{decimal, decimal_string, str_equal};

pub mod response;

verus! {

/// Countries a people search can be narrowed to, by their geo URN.
pub enum GeoUrnMap {
    Czechia,
    Slovakia,
}

/// How far away in the member's network a search result may be.
pub enum NetworkDepth {
    One,
    Two,
    Three,
}

pub open spec fn geo_urn_text(g: GeoUrnMap) -> Seq<char> {
    match g {
        GeoUrnMap::Czechia => "104508036"@,
        GeoUrnMap::Slovakia => "103119917"@,
    }
}

pub open spec fn network_depth_text(d: NetworkDepth) -> Seq<char> {
    match d {
        NetworkDepth::One => "F"@,
        NetworkDepth::Two => "S"@,
        NetworkDepth::Three => "O"@,
    }
}

impl GeoUrnMap {
    /// The numeric geo URN of the country.
    pub fn urn(&self) -> (res: u32)
        ensures
            res == match *self {
                GeoUrnMap::Czechia => 104508036u32,
                GeoUrnMap::Slovakia => 103119917u32,
            },
    {
        match self {
            GeoUrnMap::Czechia => 104508036,
            GeoUrnMap::Slovakia => 103119917,
        }
    }

    /// The geo URN as it appears in search filters.
    pub fn to_display_string(&self) -> (res: String)
        ensures
            res@ == geo_urn_text(*self),
    {
        match self {
            GeoUrnMap::Czechia => "104508036".to_owned(),
            GeoUrnMap::Slovakia => "103119917".to_owned(),
        }
    }

    /// The country a request names: `"czechia"` or `"slovakia"`.
    pub fn from_name(name: &str) -> (res: Option<GeoUrnMap>)
        ensures
            name@ == "czechia"@ ==> res == Some(GeoUrnMap::Czechia),
            name@ == "slovakia"@ ==> res == Some(GeoUrnMap::Slovakia),
            name@ != "czechia"@ && name@ != "slovakia"@ ==> res is None,
    {
        proof {
            reveal_strlit("czechia");
            reveal_strlit("slovakia");
            assert("czechia"@.len() != "slovakia"@.len());
        }
        if str_equal(name, "czechia") {
            Some(GeoUrnMap::Czechia)
        } else if str_equal(name, "slovakia") {
            Some(GeoUrnMap::Slovakia)
        } else {
            None
        }
    }
}

impl NetworkDepth {
    /// The network code used in search filters: `F`, `S` or `O`.
    pub fn to_display_string(&self) -> (res: String)
        ensures
            res@ == network_depth_text(*self),
    {
        match self {
            NetworkDepth::One => "F".to_owned(),
            NetworkDepth::Two => "S".to_owned(),
            NetworkDepth::Three => "O".to_owned(),
        }
    }

    /// The depth a request names: `"one"`, `"two"` or `"three"`.
    pub fn from_name(name: &str) -> (res: Option<NetworkDepth>)
        ensures
            name@ == "one"@ ==> res == Some(NetworkDepth::One),
            name@ == "two"@ ==> res == Some(NetworkDepth::Two),
            name@ == "three"@ ==> res == Some(NetworkDepth::Three),
            name@ != "one"@ && name@ != "two"@ && name@ != "three"@ ==> res is None,
    {
        proof {
            reveal_strlit("one");
            reveal_strlit("two");
            reveal_strlit("three");
            assert("one"@[0] != "two"@[0]);
            assert("one"@.len() != "three"@.len());
            assert("two"@.len() != "three"@.len());
        }
        if str_equal(name, "one") {
            Some(NetworkDepth::One)
        } else if str_equal(name, "two") {
            Some(NetworkDepth::Two)
        } else if str_equal(name, "three") {
            Some(NetworkDepth::Three)
        } else {
            None
        }
    }
}

/// A people search as requested through the work queue.
pub struct SearchParams {
    pub countries: Option<Vec<GeoUrnMap>>,
    pub keywords: Option<String>,
    pub keyword_first_name: Option<String>,
    pub keyword_last_name: Option<String>,
    pub keyword_title: Option<String>,
    pub keyword_company: Option<String>,
    pub keyword_school: Option<String>,
    pub profile_language: Option<Vec<String>>,
    pub request_metadata: Option<String>,
    pub network_depth: Option<Vec<NetworkDepth>>,
    pub page: u16,
    pub end: u16,
}

/// Each item followed by `", "`.
pub open spec fn each_then_comma(items: Seq<Seq<char>>) -> Seq<char>
    decreases items.len(),
{
    if items.len() == 0 {
        Seq::empty()
    } else {
        each_then_comma(items.drop_last()) + items.last() + ", "@
    }
}

/// `label + value + ", "` when the value is present, nothing otherwise.
pub open spec fn labelled(label: Seq<char>, value: Option<String>) -> Seq<char> {
    match value {
        Some(v) => label + v@ + ", "@,
        None => Seq::empty(),
    }
}

/// `label` followed by every item and `", "`, when the list is present.
pub open spec fn labelled_list(label: Seq<char>, items: Option<Seq<Seq<char>>>) -> Seq<char> {
    match items {
        Some(v) => label + each_then_comma(v),
        None => Seq::empty(),
    }
}

pub open spec fn option_text(v: Option<String>) -> Seq<char> {
    match v {
        Some(s) => s@,
        None => Seq::empty(),
    }
}

pub open spec fn country_texts(c: Option<Vec<GeoUrnMap>>) -> Option<Seq<Seq<char>>> {
    match c {
        Some(v) => Some(v@.map_values(|g: GeoUrnMap| geo_urn_text(g))),
        None => None,
    }
}

pub open spec fn depth_texts(d: Option<Vec<NetworkDepth>>) -> Option<Seq<Seq<char>>> {
    match d {
        Some(v) => Some(v@.map_values(|x: NetworkDepth| network_depth_text(x))),
        None => None,
    }
}

pub open spec fn string_texts(d: Option<Vec<String>>) -> Option<Seq<Seq<char>>> {
    match d {
        Some(v) => Some(v@.map_values(|x: String| x@)),
        None => None,
    }
}

/// How a search is described in the log.
pub open spec fn search_params_text(p: SearchParams) -> Seq<char> {
    "keywords: "@ + option_text(p.keywords) + ", page: "@ + decimal(p.page as nat)
        + ", end: "@ + decimal(p.end as nat)
        + labelled("keyword_first_name: "@, p.keyword_first_name)
        + labelled("keyword_last_name: "@, p.keyword_last_name)
        + labelled("keyword_title: "@, p.keyword_title)
        + labelled("keyword_company: "@, p.keyword_company)
        + labelled("keyword_school: "@, p.keyword_school)
        + labelled_list("countries: "@, country_texts(p.countries))
        + labelled_list("profile_language: "@, string_texts(p.profile_language))
        + labelled_list("network_depth: "@, depth_texts(p.network_depth))
}

fn append_labelled(out: &mut String, label: &str, value: &Option<String>)
    ensures
        final(out)@ == old(out)@ + labelled(label@, *value),
{
    match value {
        Some(v) => {
            out.append(label);
            out.append(v.as_str());
            out.append(", ");
        },
        None => {},
    }
}

fn append_each_then_comma(out: &mut String, items: &Vec<String>)
    ensures
        final(out)@ == old(out)@ + each_then_comma(items@.map_values(|x: String| x@)),
{
    let ghost views = items@.map_values(|x: String| x@);
    let mut i: usize = 0;
    while i < items.len()
        invariant
            i <= items.len(),
            views == items@.map_values(|x: String| x@),
            out@ == old(out)@ + each_then_comma(views.subrange(0, i as int)),
        decreases items.len() - i,
    {
        out.append(items[i].as_str());
        out.append(", ");
        proof {
            assert(views.subrange(0, i + 1).drop_last() =~= views.subrange(0, i as int));
        }
        i = i + 1;
    }
    assert(views.subrange(0, items.len() as int) =~= views);
}

pub(crate) fn country_strings(countries: &Vec<GeoUrnMap>) -> (res: Vec<String>)
    ensures
        res@.map_values(|x: String| x@) == countries@.map_values(|g: GeoUrnMap| geo_urn_text(g)),
{
    let mut out: Vec<String> = Vec::new();
    let mut i: usize = 0;
    while i < countries.len()
        invariant
            i <= countries.len(),
            out@.len() == i,
            forall|j: int| 0 <= j < i ==> #[trigger] out@[j]@ == geo_urn_text(countries@[j]),
        decreases countries.len() - i,
    {
        out.push(countries[i].to_display_string());
        i = i + 1;
    }
    assert(out@.map_values(|x: String| x@) =~= countries@.map_values(|g: GeoUrnMap| geo_urn_text(g)));
    out
}

pub(crate) fn depth_strings(depths: &Vec<NetworkDepth>) -> (res: Vec<String>)
    ensures
        res@.map_values(|x: String| x@) == depths@.map_values(|d: NetworkDepth| network_depth_text(d)),
{
    let mut out: Vec<String> = Vec::new();
    let mut i: usize = 0;
    while i < depths.len()
        invariant
            i <= depths.len(),
            out@.len() == i,
            forall|j: int| 0 <= j < i ==> #[trigger] out@[j]@ == network_depth_text(depths@[j]),
        decreases depths.len() - i,
    {
        out.push(depths[i].to_display_string());
        i = i + 1;
    }
    assert(out@.map_values(|x: String| x@) =~= depths@.map_values(|d: NetworkDepth| network_depth_text(d)));
    out
}

impl SearchParams {
    /// The search as it is written to the log.
    pub fn to_display_string(&self) -> (res: String)
        ensures
            res@ == search_params_text(*self),
    {
        let mut out = "keywords: ".to_owned();
        match &self.keywords {
            Some(k) => out.append(k.as_str()),
            None => {},
        }
        out.append(", page: ");
        let page = decimal_string(self.page as u64);
        out.append(page.as_str());
        out.append(", end: ");
        let end = decimal_string(self.end as u64);
        out.append(end.as_str());
        append_labelled(&mut out, "keyword_first_name: ", &self.keyword_first_name);
        append_labelled(&mut out, "keyword_last_name: ", &self.keyword_last_name);
        append_labelled(&mut out, "keyword_title: ", &self.keyword_title);
        append_labelled(&mut out, "keyword_company: ", &self.keyword_company);
        append_labelled(&mut out, "keyword_school: ", &self.keyword_school);
        match &self.countries {
            Some(c) => {
                out.append("countries: ");
                let texts = country_strings(c);
                append_each_then_comma(&mut out, &texts);
            },
            None => {},
        }
        match &self.profile_language {
            Some(l) => {
                out.append("profile_language: ");
                append_each_then_comma(&mut out, l);
            },
            None => {},
        }
        match &self.network_depth {
            Some(d) => {
                out.append("network_depth: ");
                let texts = depth_strings(d);
                append_each_then_comma(&mut out, &texts);
            },
            None => {},
        }
        out
    }
}

pub struct FetchCookiesResponse {
    pub status: String,
}

pub struct AuthenticateResponse {
    pub login_result: String,
    pub challenge_url: String,
}

pub struct Date {
    pub year: i32,
    pub month: Option<i32>,
    pub day: Option<i32>,
}

pub struct TimePeriod {
    pub start_date: Option<Date>,
    pub end_date: Option<Date>,
}

/// A full profile as the `profileView` endpoint returns it.
pub struct Profile {
    pub profile_urn: String,
    pub education_view: EducationView,
    pub organization_view: OrganizationView,
    pub project_view: ProjectView,
    pub position_view: PositionView,
    pub profile: ProfileView,
    pub language_view: LanguageView,
    pub certification_view: CertificateView,
    pub test_score_view: TestScoreView,
    pub course_view: CourseView,
    pub honor_view: HonorView,
    pub skill_view: SkillView,
    pub volunteer_experience_view: VolunteerExperienceView,
    pub publication_view: PublicationView,
}

pub struct EducationView {
    pub elements: Vec<Education>,
}

pub struct Education {
    pub degree_name: Option<String>,
    pub school_name: Option<String>,
    pub field_of_study: Option<String>,
    pub school_urn: Option<String>,
    pub time_period: Option<TimePeriod>,
}

pub struct OrganizationView {}

pub struct ProjectView {
    pub elements: Vec<Project>,
}

pub struct Project {
    pub title: String,
    pub description: Option<String>,
    pub url: Option<String>,
    pub time_period: Option<TimePeriod>,
}

pub struct PositionView {
    pub elements: Vec<Position>,
}

pub struct Position {
    pub title: String,
    pub location_name: Option<String>,
    pub description: Option<String>,
    pub time_period: Option<TimePeriod>,
    pub company_name: Option<String>,
}

pub struct ProfileView {
    pub summary: Option<String>,
    pub industry_name: Option<String>,
    pub first_name: String,
    pub last_name: String,
    pub location_name: Option<String>,
    pub geo_country_name: String,
    pub headline: String,
    pub picture_url: Option<String>,
}

/// The address of a profile picture: the image root followed by the path
/// segment of its first artifact.
pub fn profile_picture_url(root_url: &str, artifact_segments: &Vec<String>) -> (res: String)
    requires
        artifact_segments@.len() > 0,
    ensures
        res@ == root_url@ + artifact_segments@[0]@,
{
    let mut out = root_url.to_owned();
    out.append(artifact_segments[0].as_str());
    out
}

pub struct LanguageView {
    pub elements: Vec<Language>,
}

pub struct Language {
    pub name: String,
    pub proficiency: Option<String>,
}

pub struct CertificateView {
    pub elements: Vec<Certificate>,
}

pub struct Certificate {
    pub authority: Option<String>,
    pub name: String,
    pub time_period: Option<TimePeriod>,
    pub display_source: Option<String>,
    pub url: Option<String>,
}

pub struct TestScoreView {
    pub elements: Vec<TestScore>,
}

pub struct TestScore {
    pub name: String,
    pub description: Option<String>,
    pub score: String,
}

pub struct CourseView {
    pub elements: Vec<Course>,
}

pub struct Course {
    pub name: String,
    pub number: Option<String>,
}

pub struct HonorView {
    pub elements: Vec<Honor>,
}

pub struct Honor {
    pub description: Option<String>,
    pub occupation: Option<String>,
    pub title: String,
    pub issuer: Option<String>,
    pub issued_date: Option<Date>,
}

pub struct SkillView {
    pub elements: Vec<Skill>,
}

pub struct Skill {
    pub name: String,
    pub entity_urn: String,
}

pub struct VolunteerExperienceView {
    pub elements: Vec<VolunteerExperience>,
}

pub struct VolunteerExperience {
    pub role: String,
    pub company_name: String,
    pub time_period: Option<TimePeriod>,
    pub cause: Option<String>,
    pub description: Option<String>,
}

pub struct PublicationView {
    pub elements: Vec<Publication>,
}

pub struct Publication {
    pub date: Option<Date>,
    pub name: String,
    pub publisher: Option<String>,
    pub url: Option<String>,
}

/// One page (or the collected pages) of people search results.
pub struct SearchResult {
    pub elements: Vec<SearchItem>,
    pub request_metadata: Option<String>,
    pub total_lookup: u16,
    pub total: u64,
}

/// One person found by a search.
pub struct SearchItem {
    pub first_name: String,
    pub last_name: String,
    pub subtitle: Option<String>,
    pub summary: Option<String>,
    pub url: String,
    pub profile_urn: String,
}

impl Clone for SearchItem {
    fn clone(&self) -> (res: Self)
        ensures
            res == *self,
    {
        SearchItem {
            first_name: self.first_name.clone(),
            last_name: self.last_name.clone(),
            subtitle: clone_option_string(&self.subtitle),
            summary: clone_option_string(&self.summary),
            url: self.url.clone(),
            profile_urn: self.profile_urn.clone(),
        }
    }
}

/// A copy of an optional string.
pub fn clone_option_string(v: &Option<String>) -> (res: Option<String>)
    ensures
        res == *v,
{
    match v {
        Some(s) => Some(s.clone()),
        None => None,
    }
}

} // verus!
