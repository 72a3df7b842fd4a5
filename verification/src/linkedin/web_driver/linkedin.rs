//! Page navigation of the LinkedIn people search.
use vstd::prelude::*;
use crate::outside::{url_query_pairs, url_query_pairs_spec, url_with_query, url_with_query_spec, URL_TEXT_LIMIT};
use crate::text::{decimal, decimal_string, joined, pair_views, str_equal};

verus! {

/// One query pair with the `page` value replaced by `page`.
pub open spec fn rendered_pair(key: Seq<char>, value: Seq<char>, page: u8) -> Seq<char> {
    key + "="@ + if key == "page"@ { decimal(page as nat) } else { value }
}

pub open spec fn rendered_pairs(pairs: Seq<(Seq<char>, Seq<char>)>, page: u8) -> Seq<Seq<char>> {
    pairs.map_values(|p: (Seq<char>, Seq<char>)| rendered_pair(p.0, p.1, page))
}

pub open spec fn has_page_key(pairs: Seq<(Seq<char>, Seq<char>)>) -> bool {
    exists|i: int| 0 <= i < pairs.len() && (#[trigger] pairs[i]).0 == "page"@
}

/// The query of the result page `page`: the current pairs joined by `&`,
/// with the value of `page` replaced, or `page=<page>` added at the end.
pub open spec fn results_page_query_spec(pairs: Seq<(Seq<char>, Seq<char>)>, page: u8) -> Seq<char> {
    let kept = joined(rendered_pairs(pairs, page), "&"@);
    if has_page_key(pairs) {
        kept
    } else if pairs.len() == 0 {
        "page="@ + decimal(page as nat)
    } else {
        kept + "&"@ + "page="@ + decimal(page as nat)
    }
}

/// The query string that loads result page `page`, from the (decoded) query
/// pairs of the current address.
pub fn results_page_query(pairs: &Vec<(String, String)>, page: u8) -> (res: String)
    ensures
        res@ == results_page_query_spec(pair_views(pairs@), page),
{
    let ghost views = pair_views(pairs@);
    let ghost rendered = rendered_pairs(views, page);
    let page_text = decimal_string(page as u64);
    let mut out = String::new();
    let mut found_page = false;
    let mut i: usize = 0;
    while i < pairs.len()
        invariant
            i <= pairs.len(),
            views == pair_views(pairs@),
            rendered == rendered_pairs(views, page),
            page_text@ == decimal(page as nat),
            out@ == joined(rendered.subrange(0, i as int), "&"@),
            found_page == exists|j: int| 0 <= j < i && (#[trigger] views[j]).0 == "page"@,
        decreases pairs.len() - i,
    {
        if i > 0 {
            out.append("&");
        }
        let key = pairs[i].0.as_str();
        out.append(key);
        out.append("=");
        if str_equal(key, "page") {
            out.append(page_text.as_str());
            found_page = true;
        } else {
            out.append(pairs[i].1.as_str());
        }
        proof {
            let next = rendered.subrange(0, i + 1);
            assert(next.drop_last() =~= rendered.subrange(0, i as int));
            assert(views[i as int] == (pairs@[i as int].0@, pairs@[i as int].1@));
            assert(next.last() == rendered_pair(views[i as int].0, views[i as int].1, page));
            if i == 0 {
                assert(out@ =~= next[0]);
            }
        }
        i = i + 1;
    }
    assert(rendered.subrange(0, pairs.len() as int) =~= rendered);
    if !found_page {
        if pairs.len() > 0 {
            out.append("&");
        }
        out.append("page=");
        out.append(page_text.as_str());
        proof {
            if pairs.len() == 0 {
                assert(rendered =~= Seq::<Seq<char>>::empty());
            }
        }
    }
    out
}

/// Where result page `page` of the search at `current_url` is loaded from:
/// the same address with its query rebuilt by `results_page_query` from the
/// address's own decoded pairs. `None` where `current_url` is no absolute
/// address, or where it and the new query together run past
/// `URL_TEXT_LIMIT` characters.
pub fn results_page_url(current_url: &str, page: u8) -> (res: Option<String>)
    ensures
        match url_query_pairs_spec(current_url@) {
            None => res is None,
            Some(pairs) => {
                let query = results_page_query_spec(pairs, page);
                if current_url@.len() + query.len() <= URL_TEXT_LIMIT {
                    match url_with_query_spec(current_url@, query) {
                        Some(u) => res matches Some(r) && r@ == u,
                        None => res is None,
                    }
                } else {
                    res is None
                }
            },
        },
{
    let pairs = match url_query_pairs(current_url) {
        Some(p) => p,
        None => return None,
    };
    let query = results_page_query(&pairs, page);
    let url_len = current_url.unicode_len();
    let query_len = query.as_str().unicode_len();
    if url_len > URL_TEXT_LIMIT || query_len > URL_TEXT_LIMIT - url_len {
        return None;
    }
    url_with_query(current_url, query.as_str())
}

/// How many scans a result page gets at most.
pub const PAGE_SCANS: u8 = 5;

/// How many more scans a result page gets after one scan: none once an
/// entry of it was read, one fewer otherwise.
pub fn scans_left_after(scans_left: u8, read_any: bool) -> (res: u8)
    requires
        scans_left > 0,
    ensures
        res == if read_any { 0 } else { scans_left - 1 },
        res < scans_left,
{
    if read_any {
        0
    } else {
        scans_left - 1
    }
}

/// Where the reading of a search's result pages stands once the first page
/// is read: the page loaded last (1 for the first), the last page to read,
/// and how many scans the loaded page has left.
pub struct ResultsPaging {
    pub page: u8,
    pub last_page: u8,
    pub scans_left: u8,
}

/// What one call of `ResultsPaging::next_page` does to the page and what it
/// returns, whatever scans come between the calls.
pub open spec fn paging_turn(before: ResultsPaging, after: ResultsPaging, res: Option<u8>) -> bool {
    &&& after.last_page == before.last_page
    &&& if before.page < before.last_page {
        res == Some((before.page + 1) as u8) && after.page == before.page + 1
    } else {
        res is None && after.page == before.page
    }
}

impl ResultsPaging {
    /// Paging over the result pages after the first, up to `page_count`.
    pub fn start(page_count: u8) -> (res: Self)
        requires
            page_count < u8::MAX,
        ensures
            res.page == 1,
            res.last_page == page_count,
            res.scans_left == 0,
    {
        ResultsPaging { page: 1, last_page: page_count, scans_left: 0 }
    }

    /// The page to load once the loaded one has no scans left: the page
    /// after it, with a full round of scans, or `None` past the last page.
    pub fn next_page(&mut self) -> (res: Option<u8>)
        requires
            old(self).scans_left == 0,
        ensures
            paging_turn(*old(self), *final(self), res),
            old(self).page < old(self).last_page ==> final(self).scans_left == PAGE_SCANS,
            old(self).page >= old(self).last_page ==> *final(self) == *old(self),
    {
        if self.page < self.last_page {
            self.page = self.page + 1;
            self.scans_left = PAGE_SCANS;
            Some(self.page)
        } else {
            None
        }
    }

    /// Records one scan of the loaded page, and whether it read any entry.
    pub fn record_scan(&mut self, read_any: bool)
        requires
            old(self).scans_left > 0,
        ensures
            final(self).page == old(self).page,
            final(self).last_page == old(self).last_page,
            final(self).scans_left == if read_any { 0 } else { old(self).scans_left - 1 },
    {
        self.scans_left = scans_left_after(self.scans_left, read_any);
    }
}

/// Law: paging started for `page_count` pages loads pages 2, 3, ... up to
/// `page_count` in turn, one per call of `next_page`, and then nothing:
/// call `k` (counting from zero) gives page `k + 2` while that is at most
/// `page_count`, and `None` from then on.
pub proof fn lemma_paging_pages(states: Seq<ResultsPaging>, results: Seq<Option<u8>>, k: int)
    requires
        states.len() == results.len() + 1,
        states[0].page == 1,
        forall|i: int| 0 <= i < results.len() ==> #[trigger] paging_turn(states[i], states[i + 1], results[i]),
        0 <= k < results.len(),
    ensures
        results[k] == if k + 2 <= states[0].last_page { Some((k + 2) as u8) } else { None::<u8> },
        states[k + 1].last_page == states[0].last_page,
        states[k + 1].page == if k + 2 <= states[0].last_page {
            k + 2
        } else if states[0].last_page >= 1 {
            states[0].last_page as int
        } else {
            1
        },
    decreases k,
{
    assert(paging_turn(states[k], states[k + 1], results[k]));
    if k > 0 {
        lemma_paging_pages(states, results, k - 1);
    }
}

} // verus!
