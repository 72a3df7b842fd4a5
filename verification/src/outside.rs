//! The calls this library makes into outside crates, each behind a contract
//! that restates what the crate's source or documentation shows.
use vstd::prelude::*;
use vstd::string::StringSliceAdditionalSpecFns;
use rand::seq::SliceRandom;
use rand::Rng;
use base64::Engine;
use hmac::Mac;
use crate::text::pair_views;
use reqwest_cookie_store::CookieStore;

verus! {

/// An ASCII letter or digit: the characters `rand::distributions::Alphanumeric` draws from.
pub open spec fn is_ascii_alphanumeric(c: char) -> bool {
    ||| ('A' <= c && c <= 'Z')
    ||| ('a' <= c && c <= 'z')
    ||| ('0' <= c && c <= '9')
}

/// `rand::seq::SliceRandom::shuffle` with the thread-local generator.
/// Claimed: the vector afterwards holds the same elements, each as often as
/// before (the crate's Fisher–Yates loop only swaps). Which order comes out
/// depends on the generator and is left unsaid.
#[verifier::external_body]
pub(crate) fn shuffle_u64s(v: &mut Vec<u64>)
    ensures
        final(v)@.to_multiset() == old(v)@.to_multiset(),
        final(v)@.len() == old(v)@.len(),
{
    v.shuffle(&mut rand::thread_rng());
}

/// `rand::thread_rng().sample_iter(&Alphanumeric).take(length)` collected into a `String`.
/// Claimed: exactly `length` characters, each an ASCII letter or digit (the
/// crate samples from the 62-character table `A-Z a-z 0-9`). Which ones is chance.
#[verifier::external_body]
pub(crate) fn random_alphanumeric(length: usize) -> (res: String)
    ensures
        res@.len() == length,
        forall|i: int| 0 <= i < res@.len() ==> is_ascii_alphanumeric(#[trigger] res@[i]),
{
    rand::thread_rng().sample_iter(&rand::distributions::Alphanumeric).take(length).map(char::from).collect()
}

/// `rand::random::<u64>()`. Nothing is claimed of the value: any `u64` may come back.
#[verifier::external_body]
pub(crate) fn random_u64() -> (res: u64) {
    rand::random::<u64>()
}


/// A byte `urlencoding` leaves as it is: an ASCII letter, digit, `-`, `.`, `_` or `~`.
pub open spec fn is_unreserved_byte(b: u8) -> bool {
    ||| (48 <= b && b <= 57)
    ||| (65 <= b && b <= 90)
    ||| (97 <= b && b <= 122)
    ||| b == 45 || b == 46 || b == 95 || b == 126
}

/// An upper-case hexadecimal digit.
pub open spec fn hex_upper(d: int) -> char {
    if d < 10 { (48 + d) as char } else { (55 + d) as char }
}

/// Percent-encoding of a byte string: unreserved bytes stay, every other byte
/// becomes `%` and two upper-case hex digits.
pub open spec fn percent_encoded(bytes: Seq<u8>) -> Seq<char>
    decreases bytes.len(),
{
    if bytes.len() == 0 {
        Seq::empty()
    } else {
        let b = bytes.last();
        percent_encoded(bytes.drop_last()) + if is_unreserved_byte(b) {
            seq![b as char]
        } else {
            seq!['%', hex_upper((b / 16) as int), hex_upper((b % 16) as int)]
        }
    }
}

/// `urlencoding::encode`. Claimed, as its source (`encode_into`) shows: the
/// UTF-8 bytes of `s`, each unreserved byte kept and every other written as
/// `%XX` in upper-case hex.
#[verifier::external_body]
pub(crate) fn url_encode(s: &str) -> (res: String)
    ensures
        res@ == percent_encoded(s.spec_bytes()),
{
    urlencoding::encode(s).into_owned()
}

/// What `BASE64_STANDARD.encode` returns for these bytes.
pub uninterp spec fn base64_standard(bytes: Seq<u8>) -> Seq<char>;

/// `base64::prelude::BASE64_STANDARD.encode`. Claimed: the result is the named
/// encoding of the bytes. The crate panics when the encoded length overflows
/// `usize`, so inputs are kept well below that.
#[verifier::external_body]
pub(crate) fn base64_standard_encode(bytes: &[u8]) -> (res: String)
    requires
        bytes@.len() <= usize::MAX / 2,
    ensures
        res@ == base64_standard(bytes@),
{
    base64::prelude::BASE64_STANDARD.encode(bytes)
}

/// What `thirtyfour::support::base64_encode` returns for these bytes.
pub uninterp spec fn thirtyfour_base64(bytes: Seq<u8>) -> Seq<char>;

/// `thirtyfour::support::base64_encode`, which is `BASE64_STANDARD.encode` of
/// the base64 release thirtyfour builds with. Claimed: the result is the named
/// encoding of the bytes. That release panics when the encoded length
/// overflows `usize`, so inputs are kept well below that.
#[verifier::external_body]
pub(crate) fn thirtyfour_base64_encode(bytes: &[u8]) -> (res: String)
    requires
        bytes@.len() <= usize::MAX / 2,
    ensures
        res@ == thirtyfour_base64(bytes@),
{
    thirtyfour::support::base64_encode(bytes)
}

/// What HMAC-SHA256 (`hmac::Hmac<sha2::Sha256>`) computes for a key and a message.
pub uninterp spec fn hmac_sha256_spec(key: Seq<u8>, message: Seq<u8>) -> Seq<u8>;

/// `Hmac::<Sha256>::new_from_slice(key)`, `update(message)`, `finalize()`.
/// Claimed: the key is accepted whatever its length (`HmacCore::new_from_slice`
/// always returns `Ok`), and the tag is the named HMAC of key and message,
/// 32 bytes long (the SHA-256 output size).
#[verifier::external_body]
pub(crate) fn hmac_sha256(key: &[u8], message: &[u8]) -> (res: Option<Vec<u8>>)
    ensures
        res is Some,
        res matches Some(tag) ==> tag@ == hmac_sha256_spec(key@, message@) && tag@.len() == 32,
{
    match hmac::Hmac::<sha2::Sha256>::new_from_slice(key) {
        Ok(mut mac) => {
            mac.update(message);
            Some(mac.finalize().into_bytes().to_vec())
        },
        Err(_) => None,
    }
}

/// What `regex::Regex::new(pattern)` then `captures(haystack)` yields for
/// capture group `group`: the text of that group in the leftmost match, if
/// the pattern compiles, matches, and the group took part.
pub uninterp spec fn regex_capture(pattern: Seq<char>, haystack: Seq<char>, group: nat) -> Option<
    Seq<char>,
>;

/// `regex::Regex::new(pattern)` and `captures(haystack)`, then the text of
/// capture group `group`. Claimed: the result is the named capture; what the
/// pattern matches is not restated here.
#[verifier::external_body]
pub(crate) fn regex_capture_group(pattern: &str, haystack: &str, group: usize) -> (res: Option<String>)
    ensures
        match res {
            Some(s) => regex_capture(pattern@, haystack@, group as nat) == Some(s@),
            None => regex_capture(pattern@, haystack@, group as nat) is None,
        },
{
    let re = match regex::Regex::new(pattern) {
        Ok(re) => re,
        Err(_) => return None,
    };
    re.captures(haystack).and_then(|c| c.get(group)).map(|m| m.as_str().to_string())
}

/// What `regex::Regex::new(pattern)` then `find(haystack)` yields: the text of
/// the leftmost match, if the pattern compiles and matches.
pub uninterp spec fn regex_find(pattern: Seq<char>, haystack: Seq<char>) -> Option<Seq<char>>;

/// `regex::Regex::new(pattern)` and `find(haystack)`, the matched text.
/// Claimed: the result is the named match.
#[verifier::external_body]
pub(crate) fn regex_find_first(pattern: &str, haystack: &str) -> (res: Option<String>)
    ensures
        match res {
            Some(s) => regex_find(pattern@, haystack@) == Some(s@),
            None => regex_find(pattern@, haystack@) is None,
        },
{
    let re = match regex::Regex::new(pattern) {
        Ok(re) => re,
        Err(_) => return None,
    };
    re.find(haystack).map(|m| m.as_str().to_string())
}


/// What `url::Url::parse(url)` then `query_pairs()` yields: the decoded
/// name/value pairs of the address's query, in order, or `None` where the
/// text is no absolute address.
pub uninterp spec fn url_query_pairs_spec(url: Seq<char>) -> Option<Seq<(Seq<char>, Seq<char>)>>;

/// `url::Url::parse(url)` (reached as `reqwest::Url`) and `query_pairs()`,
/// each pair copied into owned strings. Claimed: the result is the named
/// list of pairs; how the query is split and decoded is not restated here.
#[verifier::external_body]
pub(crate) fn url_query_pairs(url: &str) -> (res: Option<Vec<(String, String)>>)
    ensures
        match res {
            Some(pairs) => url_query_pairs_spec(url@) == Some(pair_views(pairs@)),
            None => url_query_pairs_spec(url@) is None,
        },
{
    match reqwest::Url::parse(url) {
        Ok(parsed) => Some(parsed.query_pairs().map(|(k, v)| (k.into_owned(), v.into_owned())).collect()),
        Err(_) => None,
    }
}

/// What `url::Url::parse(url)`, `set_query(Some(query))` and `to_string()`
/// give: the address with its query replaced, or `None` where the text is no
/// absolute address.
pub uninterp spec fn url_with_query_spec(url: Seq<char>, query: Seq<char>) -> Option<Seq<char>>;

/// The most characters of address and query together that
/// `url_with_query` takes: far enough below `u32::MAX` bytes that the
/// re-serialised address, however much parsing and percent-encoding widen
/// it, keeps the `u32` offsets `set_query` unwraps.
pub const URL_TEXT_LIMIT: usize = 0x100_0000;

/// `url::Url::parse(url)` (reached as `reqwest::Url`), `set_query(Some(query))`
/// and `to_string()`. Claimed: the result is the named address. `set_query`
/// panics when the new address outgrows `u32` offsets, so the texts are kept
/// far below that.
#[verifier::external_body]
pub(crate) fn url_with_query(url: &str, query: &str) -> (res: Option<String>)
    requires
        url@.len() + query@.len() <= URL_TEXT_LIMIT,
    ensures
        match res {
            Some(s) => url_with_query_spec(url@, query@) == Some(s@),
            None => url_with_query_spec(url@, query@) is None,
        },
{
    match reqwest::Url::parse(url) {
        Ok(mut parsed) => {
            parsed.set_query(Some(query));
            Some(parsed.to_string())
        },
        Err(_) => None,
    }
}

/// The cookie store of `reqwest_cookie_store` (the `cookie_store` crate's
/// `CookieStore`), carried through as it is.
#[verifier::external_type_specification]
#[verifier::external_body]
pub struct ExCookieStore(CookieStore);

/// What a cookie store holds: for each (domain, path, name) it keeps a
/// cookie under, that cookie's value, and whether it lasts to the end of the
/// session (it carried no `Expires` or `Max-Age`, so it never expires).
pub uninterp spec fn cookie_entries(store: CookieStore) -> Map<(Seq<char>, Seq<char>, Seq<char>), (Seq<char>, bool)>;

/// One cookie handed to a store: it holds what it held, or the same with a
/// single entry added or replaced.
pub open spec fn cookie_store_step(
    before: Map<(Seq<char>, Seq<char>, Seq<char>), (Seq<char>, bool)>,
    after: Map<(Seq<char>, Seq<char>, Seq<char>), (Seq<char>, bool)>,
) -> bool {
    ||| after == before
    ||| exists|k: (Seq<char>, Seq<char>, Seq<char>), v: (Seq<char>, bool)| #[trigger] before.insert(k, v) == after
}

/// A character of a plain cookie's name or value: printable ASCII other
/// than space and `;` (none of them is white space).
pub open spec fn cookie_token_char(c: char) -> bool {
    '!' <= c && c <= '~' && c != ';'
}

/// How many spaces `s` starts with.
pub open spec fn leading_spaces(s: Seq<char>) -> nat
    decreases s.len(),
{
    if s.len() > 0 && s[0] == ' ' {
        1 + leading_spaces(s.subrange(1, s.len() as int))
    } else {
        0
    }
}

/// The position of the first `c` in `s`.
pub open spec fn first_char_at(s: Seq<char>, c: char) -> Option<int>
    decreases s.len(),
{
    if s.len() == 0 {
        None
    } else if s[0] == c {
        Some(0)
    } else {
        match first_char_at(s.subrange(1, s.len() as int), c) {
            Some(i) => Some(i + 1),
            None => None,
        }
    }
}

/// The name and value of a plain cookie text: spaces, then a non-empty name,
/// `=`, and a value, name and value made of `cookie_token_char`s only (so
/// no attribute follows). `None` for any other text.
pub open spec fn plain_cookie(c: Seq<char>) -> Option<(Seq<char>, Seq<char>)> {
    let body = c.subrange(leading_spaces(c) as int, c.len() as int);
    match first_char_at(body, '=') {
        Some(i) => {
            let name = body.subrange(0, i);
            let value = body.subrange(i + 1, body.len() as int);
            if i > 0 && (forall|j: int| 0 <= j < name.len() ==> cookie_token_char(#[trigger] name[j])) && (
            forall|j: int| 0 <= j < value.len() ==> cookie_token_char(#[trigger] value[j])) {
                Some((name, value))
            } else {
                None
            }
        },
        None => None,
    }
}

/// The address the LinkedIn session cookies are received from.
pub open spec fn linkedin_origin() -> Seq<char> {
    "https://www.linkedin.com"@
}

/// What handing the text `cookie`, received from `url`, to a store does: at
/// most one entry is added or replaced; and a plain cookie from the LinkedIn
/// site is stored under that host, the root path and its name, with its
/// value, to last the session.
pub open spec fn cookie_parse_effect(
    url: Seq<char>,
    cookie: Seq<char>,
    before: Map<(Seq<char>, Seq<char>, Seq<char>), (Seq<char>, bool)>,
    after: Map<(Seq<char>, Seq<char>, Seq<char>), (Seq<char>, bool)>,
) -> bool {
    &&& cookie_store_step(before, after)
    &&& url == linkedin_origin() ==> match plain_cookie(cookie) {
        Some((name, value)) => after == before.insert(("www.linkedin.com"@, "/"@, name), (value, true)),
        None => true,
    }
}

/// `CookieStore::parse(cookie, &url)`, with `url` read by `url::Url::parse`.
/// Claimed, as `CookieStore::insert` shows: the store afterwards holds what it
/// held, or the same with one entry added or replaced (an expired cookie only
/// marks an existing one expired, its value kept). And, as `cookie`'s
/// `parse_inner`, `Cookie::try_from_raw_cookie` and `insert` show: a plain
/// `name=value` text (no attribute) received from `https://www.linkedin.com`
/// gets a host-only domain `www.linkedin.com`, the default path `/` and no
/// expiry, which no public-suffix rule or earlier cookie can refuse over
/// HTTPS, so it is stored under that key with its trimmed value. For other
/// texts, which entry, and whether one is stored at all, rests on the
/// attributes, the store's public-suffix list and the clock, and is left
/// unsaid. The outcome the crate reports is dropped; where `url` is no
/// absolute address nothing is handed to the store.
#[verifier::external_body]
pub(crate) fn cookie_parse(store: &mut CookieStore, cookie: &str, url: &str)
    ensures
        cookie_store_step(cookie_entries(*old(store)), cookie_entries(*final(store))),
        cookie_parse_effect(url@, cookie@, cookie_entries(*old(store)), cookie_entries(*final(store))),
{
    if let Ok(parsed) = reqwest::Url::parse(url) {
        let _ = store.parse(cookie, &parsed);
    }
}

/// `CookieStore::get(domain, path, name)` and the cookie's `value()`.
/// Claimed: a value that comes back is the one the store holds under that
/// (domain, path, name), nothing comes back where it holds none, and a
/// cookie that lasts the session always comes back (`get` skips only expired
/// cookies). For a cookie with an expiry, whether it comes back rests on the
/// clock and is left unsaid.
#[verifier::external_body]
pub(crate) fn cookie_get(store: &CookieStore, domain: &str, path: &str, name: &str) -> (res: Option<String>)
    ensures
        res matches Some(v) ==> cookie_entries(*store).contains_key((domain@, path@, name@)) && v@
            == cookie_entries(*store)[(domain@, path@, name@)].0,
        !cookie_entries(*store).contains_key((domain@, path@, name@)) ==> res is None,
        cookie_entries(*store).contains_key((domain@, path@, name@)) && cookie_entries(*store)[(
            domain@,
            path@,
            name@,
        )].1 ==> res is Some,
{
    store.get(domain, path, name).map(|c| c.value().to_string())
}

/// `SystemTime::now().duration_since(UNIX_EPOCH)` in whole seconds, `None`
/// when the clock reads a time before the epoch. Nothing is claimed of the
/// value: it is whatever the machine's clock says.
#[verifier::external_body]
pub(crate) fn unix_time_secs() -> (res: Option<u64>) {
    match std::time::SystemTime::now().duration_since(std::time::UNIX_EPOCH) {
        Ok(d) => Some(d.as_secs()),
        Err(_) => None,
    }
}


/// What `format!("{:?}", s)` writes for a string `s`.
pub uninterp spec fn debug_str_text(s: Seq<char>) -> Seq<char>;

/// A character the string `Debug` format copies unchanged: printable ASCII
/// other than `"` and `\`.
pub open spec fn debug_plain_char(c: char) -> bool {
    ' ' <= c && c <= '~' && c != '"' && c != '\\'
}

/// `format!("{:?}", s)` for a string (std's `Debug` for `str`). Claimed: the
/// named text; and, as std documents the format, a string of plain printable
/// ASCII comes out between double quotes, unchanged.
#[verifier::external_body]
pub(crate) fn debug_str(s: &str) -> (res: String)
    ensures
        res@ == debug_str_text(s@),
        (forall|i: int| 0 <= i < s@.len() ==> debug_plain_char(#[trigger] s@[i])) ==> res@ == "\""@
            + s@ + "\""@,
{
    format!("{:?}", s)
}

} // verus!
