//! Turning the entries of a search response into `SearchItem`s.
use vstd::prelude::*;
use crate::linkedin::api::json::{clone_option_string, SearchItem, SearchResult};
use crate::outside::{regex_capture, regex_capture_group};
use crate::text::{find_first, find_str, substring};

verus! {

/// The pattern that picks the profile URN out of an entity URN.
pub const PROFILE_URN_PATTERN: &'static str = "urn:li:fsd_profile:([^,]+),";

/// One entity of a search response, as far as the crawler reads it.
pub struct SearchEntity {
    pub title: String,
    pub primary_subtitle: Option<String>,
    pub summary: Option<String>,
    pub navigation_url: String,
    pub entity_urn: String,
}

/// An element of the search clusters: a list of people, or anything else.
pub enum SearchElement {
    MetaItem(Vec<SearchItem>),
    Other,
}

/// The failure of an entry without an entity result.
pub enum SearchItemError {
    NoEntityResult,
}

/// A `SearchItem` as plain character sequences.
pub struct SearchItemModel {
    pub first_name: Seq<char>,
    pub last_name: Seq<char>,
    pub subtitle: Option<Seq<char>>,
    pub summary: Option<Seq<char>>,
    pub url: Seq<char>,
    pub profile_urn: Seq<char>,
}

pub open spec fn option_view(v: Option<String>) -> Option<Seq<char>> {
    match v {
        Some(s) => Some(s@),
        None => None,
    }
}

pub open spec fn item_model(i: SearchItem) -> SearchItemModel {
    SearchItemModel {
        first_name: i.first_name@,
        last_name: i.last_name@,
        subtitle: option_view(i.subtitle),
        summary: option_view(i.summary),
        url: i.url@,
        profile_urn: i.profile_urn@,
    }
}

/// The title holds a space, so it has a first and a last name.
pub open spec fn has_two_names(title: Seq<char>) -> bool {
    find_first(title, " "@) is Some
}

/// The text before the first space.
pub open spec fn first_name_of(title: Seq<char>) -> Seq<char> {
    title.subrange(0, find_first(title, " "@).unwrap())
}

/// The text after the first space, up to the next space if there is one.
pub open spec fn last_name_of(title: Seq<char>) -> Seq<char> {
    let rest = title.subrange(find_first(title, " "@).unwrap() + 1, title.len() as int);
    match find_first(rest, " "@) {
        Some(j) => rest.subrange(0, j),
        None => rest,
    }
}

/// The item an entity becomes, or `None` when its URN names no profile.
pub open spec fn entity_model(e: SearchEntity) -> Option<SearchItemModel> {
    match regex_capture(PROFILE_URN_PATTERN@, e.entity_urn@, 1) {
        Some(urn) => Some(
            SearchItemModel {
                first_name: first_name_of(e.title@),
                last_name: last_name_of(e.title@),
                subtitle: option_view(e.primary_subtitle),
                summary: option_view(e.summary),
                url: e.navigation_url@,
                profile_urn: urn,
            },
        ),
        None => None,
    }
}

/// Law: an entity becomes an item exactly when its URN names a profile, and
/// the item keeps the entity's own fields: the profile URN is the captured
/// one, the address is the entity's navigation URL, subtitle and summary are
/// its primary subtitle and summary, and the names are the title's first
/// two words.
pub proof fn lemma_entity_item_fields(e: SearchEntity)
    ensures
        entity_model(e) is Some <==> regex_capture(PROFILE_URN_PATTERN@, e.entity_urn@, 1) is Some,
        entity_model(e) matches Some(m) ==> {
            &&& Some(m.profile_urn) == regex_capture(PROFILE_URN_PATTERN@, e.entity_urn@, 1)
            &&& m.url == e.navigation_url@
            &&& m.subtitle == option_view(e.primary_subtitle)
            &&& m.summary == option_view(e.summary)
            &&& m.first_name == first_name_of(e.title@)
            &&& m.last_name == last_name_of(e.title@)
        },
{
}

/// Law: a title `first last` splits into its two words, and a third word is
/// dropped: for words without spaces, `first_name_of` gives the first and
/// `last_name_of` the second.
pub proof fn lemma_title_words(first: Seq<char>, last: Seq<char>, rest: Seq<char>)
    requires
        !first.contains(' '),
        !last.contains(' '),
    ensures
        first_name_of(first + " "@ + last) == first,
        last_name_of(first + " "@ + last) == last,
        first_name_of(first + " "@ + last + " "@ + rest) == first,
        last_name_of(first + " "@ + last + " "@ + rest) == last,
{
    reveal_strlit(" ");
    lemma_first_space(first, last);
    lemma_first_space(first, last + " "@ + rest);
    assert(first + " "@ + last + " "@ + rest =~= first + " "@ + (last + " "@ + rest));
    let t1 = first + " "@ + last;
    let t2 = first + " "@ + (last + " "@ + rest);
    assert(t1.subrange(0, first.len() as int) =~= first);
    assert(t2.subrange(0, first.len() as int) =~= first);
    assert(t1.subrange(first.len() as int + 1, t1.len() as int) =~= last);
    assert(t2.subrange(first.len() as int + 1, t2.len() as int) =~= last + " "@ + rest);
    lemma_no_space(last);
    lemma_first_space(last, rest);
    assert((last + " "@ + rest).subrange(0, last.len() as int) =~= last);
}

/// A text without spaces has no space to find.
proof fn lemma_no_space(a: Seq<char>)
    requires
        !a.contains(' '),
    ensures
        find_first(a, " "@) is None,
{
    reveal_strlit(" ");
    crate::text::lemma_find_from(a, " "@, 0);
    if let Some(k) = find_first(a, " "@) {
        assert(a.subrange(k, k + 1)[0] == a[k]);
        assert(a.contains(a[k]));
    }
}

/// The first space of `a + " " + b`, where `a` has none, is right after `a`.
proof fn lemma_first_space(a: Seq<char>, b: Seq<char>)
    requires
        !a.contains(' '),
    ensures
        find_first(a + " "@ + b, " "@) == Some(a.len() as int),
{
    reveal_strlit(" ");
    let t = a + " "@ + b;
    crate::text::lemma_find_from(t, " "@, 0);
    assert(t.subrange(a.len() as int, a.len() as int + 1) =~= " "@);
    assert(crate::text::occurs_at(t, " "@, a.len() as int));
    match find_first(t, " "@) {
        Some(k) => {
            if k < a.len() {
                assert(t.subrange(k, k + 1)[0] == t[k]);
                assert(t[k] == a[k]);
                assert(a.contains(a[k]));
            }
        },
        None => {},
    }
}

/// The items of the given entities, skipping those without a profile URN.
pub open spec fn entity_models(es: Seq<SearchEntity>) -> Seq<SearchItemModel>
    decreases es.len(),
{
    if es.len() == 0 {
        Seq::empty()
    } else {
        entity_models(es.drop_last()) + match entity_model(es.last()) {
            Some(m) => seq![m],
            None => Seq::empty(),
        }
    }
}

/// All entries up to `i` carry an entity result.
pub open spec fn all_present_before(es: Seq<Option<SearchEntity>>, i: int) -> bool {
    forall|j: int| 0 <= j < i ==> (#[trigger] es[j]) is Some
}

/// Every entity that is reached before a missing one has a two-part title.
pub open spec fn names_splittable(es: Seq<Option<SearchEntity>>) -> bool {
    forall|i: int|
        0 <= i < es.len() && all_present_before(es, i) && (#[trigger] es[i]) is Some
            ==> has_two_names(es[i].unwrap().title@)
}

pub open spec fn unwrapped(es: Seq<Option<SearchEntity>>) -> Seq<SearchEntity> {
    es.map_values(|e: Option<SearchEntity>| e.unwrap())
}

fn split_name(title: &str) -> (res: (String, String))
    requires
        has_two_names(title@),
    ensures
        res.0@ == first_name_of(title@),
        res.1@ == last_name_of(title@),
{
    proof {
        crate::text::lemma_find_from(title@, " "@, 0);
    }
    let k = match find_str(title, " ") {
        Some(k) => k,
        None => 0,
    };
    let n = title.unicode_len();
    let first = substring(title, 0, k);
    proof {
        reveal_strlit(" ");
    }
    let rest = substring(title, k + 1, n);
    proof {
        crate::text::lemma_find_from(rest@, " "@, 0);
    }
    let m = rest.unicode_len();
    let last = match find_str(rest.as_str(), " ") {
        Some(j) => substring(rest.as_str(), 0, j),
        None => substring(rest.as_str(), 0, m),
    };
    proof {
        assert(rest@.subrange(0, m as int) =~= rest@);
    }
    (first, last)
}

fn item_of(e: &SearchEntity) -> (res: Option<SearchItem>)
    requires
        has_two_names(e.title@),
    ensures
        match entity_model(*e) {
            Some(m) => res matches Some(item) && item_model(item) == m,
            None => res is None,
        },
{
    let urn = match regex_capture_group(PROFILE_URN_PATTERN, e.entity_urn.as_str(), 1) {
        Some(urn) => urn,
        None => return None,
    };
    let (first_name, last_name) = split_name(e.title.as_str());
    Some(
        SearchItem {
            first_name,
            last_name,
            subtitle: clone_option_string(&e.primary_subtitle),
            summary: clone_option_string(&e.summary),
            url: e.navigation_url.clone(),
            profile_urn: urn,
        },
    )
}

/// The people of one list of search entries. An entry without an entity
/// result fails the whole list; an entity whose URN names no profile is left
/// out. Names are the first two space-separated words of the title.
pub fn search_items_from_entities(entities: Vec<Option<SearchEntity>>) -> (res: Result<Vec<SearchItem>, SearchItemError>)
    requires
        names_splittable(entities@),
    ensures
        all_present_before(entities@, entities@.len() as int) ==> (res matches Ok(items)
            && items@.map_values(|i: SearchItem| item_model(i)) == entity_models(unwrapped(entities@))),
        !all_present_before(entities@, entities@.len() as int) ==> res matches Err(
            SearchItemError::NoEntityResult,
        ),
{
    let mut out: Vec<SearchItem> = Vec::new();
    let mut i: usize = 0;
    while i < entities.len()
        invariant
            i <= entities.len(),
            names_splittable(entities@),
            all_present_before(entities@, i as int),
            out@.map_values(|x: SearchItem| item_model(x)) == entity_models(
                unwrapped(entities@.subrange(0, i as int)),
            ),
        decreases entities.len() - i,
    {
        match &entities[i] {
            None => {
                return Err(SearchItemError::NoEntityResult);
            },
            Some(e) => {
                let ghost before = out@;
                let item = item_of(e);
                proof {
                    let pre = unwrapped(entities@.subrange(0, i as int));
                    let post = unwrapped(entities@.subrange(0, i + 1));
                    assert(post.drop_last() =~= pre);
                    assert(post.last() == *e);
                }
                match item {
                    Some(it) => {
                        out.push(it);
                    },
                    None => {},
                }
                assert(out@.map_values(|x: SearchItem| item_model(x)) =~= entity_models(
                    unwrapped(entities@.subrange(0, i + 1)),
                ));
            },
        }
        i = i + 1;
    }
    assert(entities@.subrange(0, entities@.len() as int) =~= entities@);
    Ok(out)
}

/// The items of the last people list among the elements, none if there is none.
pub open spec fn last_meta_items(es: Seq<SearchElement>) -> Seq<SearchItem>
    decreases es.len(),
{
    if es.len() == 0 {
        Seq::empty()
    } else {
        match es.last() {
            SearchElement::MetaItem(items) => items@,
            SearchElement::Other => last_meta_items(es.drop_last()),
        }
    }
}

impl SearchResult {
    /// One result page from the clusters of a search response: the people of
    /// the last people list, the total count and the paging total. A response
    /// without elements gives an empty page with zero totals.
    pub fn from_clusters(elements: Vec<SearchElement>, total_result_count: u64, paging_total: u16) -> (res: SearchResult)
        ensures
            elements@.len() == 0 ==> res.elements@.len() == 0 && res.total == 0 && res.total_lookup == 0,
            elements@.len() > 0 ==> res.elements@ == last_meta_items(elements@) && res.total
                == total_result_count && res.total_lookup == paging_total,
            res.request_metadata is None,
    {
        if elements.len() == 0 {
            return SearchResult { request_metadata: None, elements: Vec::new(), total: 0, total_lookup: 0 };
        }
        let ghost all = elements@;
        let mut items: Vec<SearchItem> = Vec::new();
        let mut rest = elements;
        loop
            invariant_except_break
                last_meta_items(all) == last_meta_items(rest@),
                items@.len() == 0,
            ensures
                items@ == last_meta_items(all),
            decreases rest@.len(),
        {
            let ghost before = rest@;
            match rest.pop() {
                None => {
                    assert(items@ =~= last_meta_items(before));
                    break;
                },
                Some(SearchElement::MetaItem(found)) => {
                    items = found;
                    break;
                },
                Some(SearchElement::Other) => {
                    assert(rest@ =~= before.drop_last());
                },
            }
        }
        SearchResult { elements: items, total: total_result_count, total_lookup: paging_total, request_metadata: None }
    }
}

} // verus!
