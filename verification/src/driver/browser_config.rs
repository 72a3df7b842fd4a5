//! How the browsers are set up: their arguments, preferences and the
//! profile each session starts from.
use vstd::prelude::*;
use crate::outside::{thirtyfour_base64, thirtyfour_base64_encode};

verus! {

/// Settings for a Chrome session.
pub struct Chrome;

/// Settings for a Firefox session.
pub struct Firefox;

/// The arguments Chrome is started with.
pub open spec fn chrome_args() -> Seq<Seq<char>> {
    seq![
        "--disable-background-timer-throttling"@,
        "--disable-backgrounding-occluded-windows"@,
        "--disable-logging"@,
        "--no-sandbox"@,
        "--disable-blink-features=AutomationControlled"@,
        "--disable-infobars"@,
        "--disable-notifications"@,
        "--disable-popup-blocking"@,
        "--disable-extensions"@,
        "--disable-dev-shm-usage"@,
        "--no-sandbox"@,
        "--window-size=1920,1080"@,
        "--start-maximized"@,
        "--ignore-certificate-errors"@,
        "--user-agent=Mozilla/5.0 (Windows NT 10.0; Win64; x64) AppleWebKit/537.36 (KHTML, like Gecko) Chrome/120.0.0.0 Safari/537.36"@,
    ]
}

/// The arguments Chrome is started with (windowed).
pub fn get_chrome_args() -> (res: Vec<&'static str>)
    ensures
        res@.map_values(|a: &str| a@) == chrome_args(),
{
    let res = vec![
        "--disable-background-timer-throttling",
        "--disable-backgrounding-occluded-windows",
        "--disable-logging",
        "--no-sandbox",
        "--disable-blink-features=AutomationControlled",
        "--disable-infobars",
        "--disable-notifications",
        "--disable-popup-blocking",
        "--disable-extensions",
        "--disable-dev-shm-usage",
        "--no-sandbox",
        "--window-size=1920,1080",
        "--start-maximized",
        "--ignore-certificate-errors",
        "--user-agent=Mozilla/5.0 (Windows NT 10.0; Win64; x64) AppleWebKit/537.36 (KHTML, like Gecko) Chrome/120.0.0.0 Safari/537.36",
    ];
    assert(res@.map_values(|a: &str| a@) =~= chrome_args());
    res
}

/// The arguments Firefox is started with: none.
pub fn get_firefox_args() -> (res: Vec<&'static str>)
    ensures
        res@.len() == 0,
{
    Vec::new()
}

/// The switch Chrome is told to leave out, so it does not announce automation.
pub const CHROME_EXCLUDED_SWITCH: &'static str = "enable-automation";

/// The argument that points Chrome at a session's profile directory.
pub fn chrome_user_data_dir_arg(user_dir_path: &str) -> (res: String)
    ensures
        res@ == "user-data-dir="@ + user_dir_path@,
{
    let mut out = "user-data-dir=".to_owned();
    out.append(user_dir_path);
    out
}

/// The numbers of the session directories still to be made when `existing`
/// are there and `wanted` are needed: `existing, existing + 1, ..., wanted - 1`
/// (none when there are enough).
pub fn sessions_to_create(existing: u16, wanted: u16) -> (res: Vec<u16>)
    ensures
        existing >= wanted ==> res@.len() == 0,
        existing < wanted ==> res@.len() == wanted - existing,
        forall|i: int| 0 <= i < res@.len() ==> #[trigger] res@[i] == existing + i,
{
    let mut out: Vec<u16> = Vec::new();
    let mut i: u16 = existing;
    while i < wanted
        invariant
            existing <= wanted ==> existing <= i <= wanted,
            existing > wanted ==> i == existing,
            out@.len() == i - existing,
            forall|j: int| 0 <= j < out@.len() ==> #[trigger] out@[j] == existing + j,
        decreases wanted - i,
    {
        out.push(i);
        i = i + 1;
    }
    out
}

/// The Firefox binary the sessions run.
pub const FIREFOX_BINARY: &'static str = "C:\\Program Files\\Mozilla Firefox\\firefox.exe";

/// The user agent Firefox reports.
pub const FIREFOX_USER_AGENT: &'static str = "Mozilla/5.0 (Windows NT 10.0; Win64; x64; rv:120.0) Gecko/20100101 Firefox/120.0";

/// The value of a Firefox preference.
pub enum PrefValue {
    Bool(bool),
    Int(i64),
    Text(&'static str),
}

/// One preference as plain values.
pub open spec fn pref_view(p: (&'static str, PrefValue)) -> (Seq<char>, PrefValue) {
    (p.0@, p.1)
}

/// The preferences every Firefox session gets, in the order they are set:
/// WebDriver hidden, hardware and media features on, English locale,
/// tracking protection and caches off.
pub open spec fn firefox_preferences_spec() -> Seq<(Seq<char>, PrefValue)> {
    seq![
        ("dom.webdriver.enabled"@, PrefValue::Bool(false)),
        ("webdriver_enable_native_events"@, PrefValue::Bool(false)),
        ("webdriver.load.strategy"@, PrefValue::Text("unstable")),
        ("webgl.disabled"@, PrefValue::Bool(false)),
        ("canvas.capturestream.enabled"@, PrefValue::Bool(true)),
        ("media.navigator.enabled"@, PrefValue::Bool(true)),
        ("media.hardware-video-decoding.enabled"@, PrefValue::Bool(true)),
        ("dom.webgl.enabled"@, PrefValue::Bool(true)),
        ("layout.css.font-visibility.level"@, PrefValue::Int(1)),
        ("media.webaudio.enabled"@, PrefValue::Bool(true)),
        ("javascript.options.wasm"@, PrefValue::Bool(true)),
        ("privacy.resistFingerprinting"@, PrefValue::Bool(false)),
        ("intl.accept_languages"@, PrefValue::Text("en-US, en")),
        ("general.useragent.locale"@, PrefValue::Text("en-US")),
        ("network.http.referer.spoofSource"@, PrefValue::Bool(false)),
        ("security.ssl.disable_session_identifiers"@, PrefValue::Bool(false)),
        ("privacy.trackingprotection.enabled"@, PrefValue::Bool(false)),
        ("privacy.trackingprotection.enabled"@, PrefValue::Bool(false)),
        ("privacy.trackingprotection.pbmode.enabled"@, PrefValue::Bool(false)),
        ("browser.cache.memory.enable"@, PrefValue::Bool(false)),
        ("browser.cache.offline.enable"@, PrefValue::Bool(false)),
        ("network.http.use-cache"@, PrefValue::Bool(false)),
        ("dom.webdriver.enabled"@, PrefValue::Bool(false)),
    ]
}

/// The preferences every Firefox session gets, in the order they are set.
pub fn firefox_preferences() -> (res: Vec<(&'static str, PrefValue)>)
    ensures
        res@.map_values(|p: (&'static str, PrefValue)| pref_view(p)) == firefox_preferences_spec(),
{
    let res = vec![
        ("dom.webdriver.enabled", PrefValue::Bool(false)),
        ("webdriver_enable_native_events", PrefValue::Bool(false)),
        ("webdriver.load.strategy", PrefValue::Text("unstable")),
        ("webgl.disabled", PrefValue::Bool(false)),
        ("canvas.capturestream.enabled", PrefValue::Bool(true)),
        ("media.navigator.enabled", PrefValue::Bool(true)),
        ("media.hardware-video-decoding.enabled", PrefValue::Bool(true)),
        ("dom.webgl.enabled", PrefValue::Bool(true)),
        ("layout.css.font-visibility.level", PrefValue::Int(1)),
        ("media.webaudio.enabled", PrefValue::Bool(true)),
        ("javascript.options.wasm", PrefValue::Bool(true)),
        ("privacy.resistFingerprinting", PrefValue::Bool(false)),
        ("intl.accept_languages", PrefValue::Text("en-US, en")),
        ("general.useragent.locale", PrefValue::Text("en-US")),
        ("network.http.referer.spoofSource", PrefValue::Bool(false)),
        ("security.ssl.disable_session_identifiers", PrefValue::Bool(false)),
        ("privacy.trackingprotection.enabled", PrefValue::Bool(false)),
        ("privacy.trackingprotection.enabled", PrefValue::Bool(false)),
        ("privacy.trackingprotection.pbmode.enabled", PrefValue::Bool(false)),
        ("browser.cache.memory.enable", PrefValue::Bool(false)),
        ("browser.cache.offline.enable", PrefValue::Bool(false)),
        ("network.http.use-cache", PrefValue::Bool(false)),
        ("dom.webdriver.enabled", PrefValue::Bool(false)),
    ];
    assert(res@.map_values(|p: (&'static str, PrefValue)| pref_view(p)) =~= firefox_preferences_spec());
    res
}

/// The four bytes a zip archive starts with: `PK\x03\x04`.
pub open spec fn is_zip_spec(bytes: Seq<u8>) -> bool {
    bytes.len() >= 4 && bytes[0] == 0x50 && bytes[1] == 0x4B && bytes[2] == 0x03 && bytes[3] == 0x04
}

/// Whether `bytes` start like a zip archive.
pub fn is_zip_archive(bytes: &[u8]) -> (res: bool)
    ensures
        res == is_zip_spec(bytes@),
{
    bytes.len() >= 4 && bytes[0] == 0x50 && bytes[1] == 0x4B && bytes[2] == 0x03 && bytes[3] == 0x04
}

/// A zipped Firefox profile as the text a session is started with: its
/// base64 encoding. `None` when the bytes are not a zip archive.
pub fn encode_profile(profile: &[u8]) -> (res: Option<String>)
    requires
        profile@.len() <= usize::MAX / 2,
    ensures
        is_zip_spec(profile@) ==> (res matches Some(t) && t@ == thirtyfour_base64(profile@)),
        !is_zip_spec(profile@) ==> res is None,
{
    if is_zip_archive(profile) {
        Some(thirtyfour_base64_encode(profile))
    } else {
        None
    }
}

/// One copy of the encoded profile per session.
pub fn session_profiles(encoded: &str, session_count: u16) -> (res: Vec<String>)
    ensures
        res@.len() == session_count,
        forall|i: int| 0 <= i < res@.len() ==> (#[trigger] res@[i])@ == encoded@,
{
    let mut out: Vec<String> = Vec::new();
    let mut i: u16 = 0;
    while i < session_count
        invariant
            i <= session_count,
            out@.len() == i,
            forall|j: int| 0 <= j < out@.len() ==> (#[trigger] out@[j])@ == encoded@,
        decreases session_count - i,
    {
        out.push(encoded.to_owned());
        i = i + 1;
    }
    out
}

} // verus!
