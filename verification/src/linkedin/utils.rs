//! Session cookie helpers.
use vstd::prelude::*;
use crate::outside::{random_u64, regex_capture, regex_capture_group};
use crate::text::{decimal, decimal_string, zero_pad, zero_padded};

verus! {

/// The pattern that finds the `JSESSIONID` value in a cookie header.
pub const JSESSIONID_PATTERN: &'static str = r#"JSESSIONID="(.*?)"(?:;|$)"#;

/// The session id a cookie string carries: the quoted `JSESSIONID` value.
pub fn cookies_session_id(cookies: &str) -> (res: Option<String>)
    ensures
        match regex_capture(JSESSIONID_PATTERN@, cookies@, 1) {
            Some(v) => res matches Some(s) && s@ == v,
            None => res is None,
        },
{
    regex_capture_group(JSESSIONID_PATTERN, cookies, 1)
}

/// The session id made from a number: `ajax:` and the number written with
/// at least 19 digits.
pub open spec fn jsessionid_text(n: u64) -> Seq<char> {
    "ajax:"@ + zero_padded(decimal(n as nat), 19)
}

/// A session id for `n`: `ajax:` followed by `n` zero-padded to 19 digits.
pub fn format_jsessionid(n: u64) -> (res: String)
    ensures
        res@ == jsessionid_text(n),
{
    let digits = decimal_string(n);
    let padded = zero_pad(digits.as_str(), 19);
    let mut out = "ajax:".to_owned();
    out.append(padded.as_str());
    out
}

/// A fresh session id from a random number.
pub fn generate_jsessionid() -> (res: String)
    ensures
        exists|n: u64| res@ == jsessionid_text(n),
{
    let n = random_u64();
    format_jsessionid(n)
}

} // verus!
