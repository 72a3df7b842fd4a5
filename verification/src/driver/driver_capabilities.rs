//! The arguments of the headless ("undetected") browser sessions.
use vstd::prelude::*;

verus! {

/// The arguments headless Chrome is started with.
pub open spec fn chrome_undetected_args() -> Seq<Seq<char>> {
    seq![
        "--disable-background-timer-throttling"@,
        "--disable-backgrounding-occluded-windows"@,
        "--disable-logging"@,
        "--no-sandbox"@,
        "--headless=new"@,
        "--disable-gpu"@,
        "--disable-blink-features=AutomationControlled"@,
        "--disable-infobars"@,
        "--disable-notifications"@,
        "--disable-popup-blocking"@,
        "--disable-extensions"@,
        "--disable-dev-shm-usage"@,
        "--no-sandbox"@,
        "--window-size=1920,1080"@,
        "--start-maximized"@,
        "--ignore-certificate-errors"@,
        "--user-agent=Mozilla/5.0 (Windows NT 10.0; Win64; x64) AppleWebKit/537.36 (KHTML, like Gecko) Chrome/120.0.0.0 Safari/537.36"@,
    ]
}

/// The arguments headless Chrome is started with.
pub fn get_chrome_undetected_args() -> (res: Vec<&'static str>)
    ensures
        res@.map_values(|a: &str| a@) == chrome_undetected_args(),
{
    let res = vec![
        "--disable-background-timer-throttling",
        "--disable-backgrounding-occluded-windows",
        "--disable-logging",
        "--no-sandbox",
        "--headless=new",
        "--disable-gpu",
        "--disable-blink-features=AutomationControlled",
        "--disable-infobars",
        "--disable-notifications",
        "--disable-popup-blocking",
        "--disable-extensions",
        "--disable-dev-shm-usage",
        "--no-sandbox",
        "--window-size=1920,1080",
        "--start-maximized",
        "--ignore-certificate-errors",
        "--user-agent=Mozilla/5.0 (Windows NT 10.0; Win64; x64) AppleWebKit/537.36 (KHTML, like Gecko) Chrome/120.0.0.0 Safari/537.36",
    ];
    assert(res@.map_values(|a: &str| a@) =~= chrome_undetected_args());
    res
}

/// The arguments headless Firefox is started with.
pub fn get_firefox_undetected_args() -> (res: Vec<&'static str>)
    ensures
        res@.map_values(|a: &str| a@) == seq![
            "--width=1920"@,
            "--height=1080"@,
            "--disable-notifications"@,
            "--disable-popup-blocking"@,
        ],
{
    let res = vec!["--width=1920", "--height=1080", "--disable-notifications", "--disable-popup-blocking"];
    assert(res@.map_values(|a: &str| a@) =~= seq![
        "--width=1920"@,
        "--height=1080"@,
        "--disable-notifications"@,
        "--disable-popup-blocking"@,
    ]);
    res
}

} // verus!
