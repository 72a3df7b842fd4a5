//! The headers that make requests look like the LinkedIn Android app.
use vstd::prelude::*;
use vstd::utf8::encode_utf8;

verus! {

/// A header value `http::HeaderValue::from_str` accepts: every byte of its
/// UTF-8 encoding is a tab or at least 32, and none is 127 (DEL).
pub open spec fn valid_header_value(s: Seq<char>) -> bool {
    forall|i: int|
        0 <= i < encode_utf8(s).len() ==> {
            let b = #[trigger] encode_utf8(s)[i];
            (b >= 32 && b != 127) || b == 9
        }
}

/// Whether `s` may be sent as a header value.
pub fn is_valid_header_value(s: &str) -> (res: bool)
    ensures
        res == valid_header_value(s@),
{
    let bytes = s.as_bytes();
    let mut i: usize = 0;
    while i < bytes.len()
        invariant
            bytes@ == encode_utf8(s@),
            i <= bytes@.len(),
            forall|j: int| 0 <= j < i ==> {
                let b = #[trigger] bytes@[j];
                (b >= 32 && b != 127) || b == 9
            },
        decreases bytes.len() - i,
    {
        let b = bytes[i];
        if !((b >= 32 && b != 127) || b == 9) {
            return false;
        }
        i = i + 1;
    }
    true
}

/// A header name and value, as plain text.
pub open spec fn header_view(h: (String, String)) -> (Seq<char>, Seq<char>) {
    (h.0@, h.1@)
}

pub open spec fn headers_view(hs: Seq<(String, String)>) -> Seq<(Seq<char>, Seq<char>)> {
    hs.map_values(|h: (String, String)| header_view(h))
}

fn header(name: &str, value: &str) -> (res: (String, String))
    ensures
        header_view(res) == (name@, value@),
{
    (name.to_owned(), value.to_owned())
}

pub fn default_requested_with() -> (res: &'static str)
    ensures
        res@ == "com.linkedin.android"@,
{
    "com.linkedin.android"
}

pub fn default_webview_user_agent() -> (res: &'static str)
    ensures
        res@ == "Mozilla/5.0 (Linux; Android 14; Android SDK built for x86_64 Build/SE1A.220826.006.A1; wv) AppleWebKit/537.36 (KHTML, like Gecko) Version/4.0 Chrome/91.0.4472.114 Mobile Safari/537.36"@,
{
    "Mozilla/5.0 (Linux; Android 14; Android SDK built for x86_64 Build/SE1A.220826.006.A1; wv) AppleWebKit/537.36 (KHTML, like Gecko) Version/4.0 Chrome/91.0.4472.114 Mobile Safari/537.36"
}

pub fn default_user_agent() -> (res: &'static str)
    ensures
        res@ == "ANDROID OS"@,
{
    "ANDROID OS"
}

pub fn default_li_user_agent() -> (res: &'static str)
    ensures
        res@ == "LIAuthLibrary:0.0.3 com.linkedin.android:4.1.1022 unknown_Android SDK built for x86_64:android_12"@,
{
    "LIAuthLibrary:0.0.3 com.linkedin.android:4.1.1022 unknown_Android SDK built for x86_64:android_12"
}

/// The headers of requests made as the app's web view.
pub open spec fn webview_headers_spec(webview_user_agent: Seq<char>, requested_with: Seq<char>) -> Seq<(Seq<char>, Seq<char>)> {
    seq![
        ("User-Agent"@, webview_user_agent),
        ("x-requested-with"@, requested_with),
        ("sec-fetch-site"@, "none"@),
        ("sec-fetch-mode"@, "navigate"@),
        ("sec-fetch-user"@, "?1"@),
        ("sec-fetch-dest"@, "document"@),
        ("accept-language"@, "en-US,en;q=0.9"@),
    ]
}

/// The headers of requests made as the app's web view.
pub fn new_webview_tracking_headers(webview_user_agent: &str, requested_with: &str) -> (res: Vec<(String, String)>)
    requires
        valid_header_value(webview_user_agent@),
        valid_header_value(requested_with@),
    ensures
        headers_view(res@) == webview_headers_spec(webview_user_agent@, requested_with@),
{
    let mut headers: Vec<(String, String)> = Vec::new();
    headers.push(header("User-Agent", webview_user_agent));
    headers.push(header("x-requested-with", requested_with));
    headers.push(header("sec-fetch-site", "none"));
    headers.push(header("sec-fetch-mode", "navigate"));
    headers.push(header("sec-fetch-user", "?1"));
    headers.push(header("sec-fetch-dest", "document"));
    headers.push(header("accept-language", "en-US,en;q=0.9"));
    assert(headers_view(headers@) =~= webview_headers_spec(webview_user_agent@, requested_with@));
    headers
}

/// The headers of requests made as the native app.
pub open spec fn native_headers_spec(
    jsessionid: Seq<char>,
    device_id: Seq<char>,
    tracking_json: Seq<char>,
    user_agent: Seq<char>,
    li_user_agent: Seq<char>,
) -> Seq<(Seq<char>, Seq<char>)> {
    seq![
        ("Host"@, "www.linkedin.com"@),
        ("User-Agent"@, user_agent),
        ("x-udid"@, device_id),
        ("accept-language"@, "en-US"@),
        ("csrf-token"@, jsessionid),
        ("x-li-track"@, tracking_json),
        ("x-li-lang"@, "en-US"@),
        ("x-li-user-agent"@, li_user_agent),
    ]
}

/// The headers of requests made as the native app: the session id as CSRF
/// token, the device id, and the device description (`tracking_json`, the
/// device info serialised as JSON).
pub fn new_native_tracking_headers(
    jsessionid: &str,
    device_id: &str,
    tracking_json: &str,
    user_agent: &str,
    li_user_agent: &str,
) -> (res: Vec<(String, String)>)
    requires
        valid_header_value(jsessionid@),
        valid_header_value(device_id@),
        valid_header_value(tracking_json@),
        valid_header_value(user_agent@),
        valid_header_value(li_user_agent@),
    ensures
        headers_view(res@) == native_headers_spec(jsessionid@, device_id@, tracking_json@, user_agent@, li_user_agent@),
{
    let mut headers: Vec<(String, String)> = Vec::new();
    headers.push(header("Host", "www.linkedin.com"));
    headers.push(header("User-Agent", user_agent));
    headers.push(header("x-udid", device_id));
    headers.push(header("accept-language", "en-US"));
    headers.push(header("csrf-token", jsessionid));
    headers.push(header("x-li-track", tracking_json));
    headers.push(header("x-li-lang", "en-US"));
    headers.push(header("x-li-user-agent", li_user_agent));
    assert(headers_view(headers@) =~= native_headers_spec(jsessionid@, device_id@, tracking_json@, user_agent@, li_user_agent@));
    headers
}

/// The headers of the plain API requests, with the CSRF token when one is given.
pub open spec fn default_headers_spec(csrf_token: Option<Seq<char>>) -> Seq<(Seq<char>, Seq<char>)> {
    seq![
        ("X-Li-User-Agent"@, "LIAuthLibrary:0.0.3 com.linkedin.android:4.1.881 Asus_ASUS_Z01QD:android_9"@),
        ("User-Agent"@, "ANDROID OS"@),
        ("X-User-Language"@, "en"@),
        ("X-User-Locale"@, "en_US"@),
        ("Accept-Language"@, "en-us"@),
    ] + match csrf_token {
        Some(t) => seq![("csrf-token"@, t)],
        None => Seq::empty(),
    }
}

/// The headers of the plain API requests, with the CSRF token when one is given.
pub fn create_default_headers(csrf_token: Option<&str>) -> (res: Vec<(String, String)>)
    requires
        csrf_token matches Some(t) ==> valid_header_value(t@),
    ensures
        headers_view(res@) == default_headers_spec(match csrf_token {
            Some(t) => Some(t@),
            None => None,
        }),
{
    let mut headers: Vec<(String, String)> = Vec::new();
    headers.push(header("X-Li-User-Agent", "LIAuthLibrary:0.0.3 com.linkedin.android:4.1.881 Asus_ASUS_Z01QD:android_9"));
    headers.push(header("User-Agent", "ANDROID OS"));
    headers.push(header("X-User-Language", "en"));
    headers.push(header("X-User-Locale", "en_US"));
    headers.push(header("Accept-Language", "en-us"));
    match csrf_token {
        Some(token) => {
            headers.push(header("csrf-token", token));
        },
        None => {},
    }
    assert(headers_view(headers@) =~= default_headers_spec(match csrf_token {
        Some(t) => Some(t@),
        None => None,
    }));
    headers
}

} // verus!
