use omicron_crawler::driver::browser_config::{
    chrome_user_data_dir_arg, encode_profile, firefox_preferences, get_chrome_args, get_firefox_args, is_zip_archive,
    session_profiles, sessions_to_create, PrefValue,
};
use omicron_crawler::driver::driver_capabilities::{get_chrome_undetected_args, get_firefox_undetected_args};
use omicron_crawler::driver::driver_service::{
    chrome_driver_marker, chrome_driver_port_arg, chrome_driver_started, find_occurrences, gecko_driver_started,
    gecko_marker, patch_with_random,
};
use omicron_crawler::driver::session_initializer::{ChromeSessionInitializer, GeckoSessionInitializer};
use omicron_crawler::driver_session::get_undetected_chromedriver_args;

#[test]
fn chrome_arguments() {
    let args = get_chrome_args();
    assert_eq!(args.len(), 15);
    assert_eq!(args[0], "--disable-background-timer-throttling");
    assert_eq!(args[3], "--no-sandbox");
    assert_eq!(args[10], "--no-sandbox");
    assert!(args[14].starts_with("--user-agent=Mozilla/5.0 (Windows NT 10.0"));
    assert!(get_firefox_args().is_empty());
    assert_eq!(chrome_user_data_dir_arg("sessions/0"), "user-data-dir=sessions/0");
}

#[test]
fn undetected_arguments_are_listed() {
    assert!(!get_chrome_undetected_args().is_empty());
    let _ = get_firefox_undetected_args();
    assert!(!get_undetected_chromedriver_args().is_empty());
}

#[test]
fn missing_session_directories() {
    assert_eq!(sessions_to_create(2, 5), vec![2, 3, 4]);
    assert!(sessions_to_create(5, 5).is_empty());
    assert!(sessions_to_create(7, 3).is_empty());
}

#[test]
fn firefox_preferences_in_order() {
    let prefs = firefox_preferences();
    assert_eq!(prefs.len(), 23);
    assert_eq!(prefs[0].0, "dom.webdriver.enabled");
    assert!(matches!(prefs[0].1, PrefValue::Bool(false)));
    assert!(matches!(prefs[8].1, PrefValue::Int(1)));
    assert_eq!(prefs[12].0, "intl.accept_languages");
    assert!(matches!(prefs[12].1, PrefValue::Text("en-US, en")));
    assert_eq!(prefs[22].0, "dom.webdriver.enabled");
}

#[test]
fn zipped_profile_is_encoded_once_per_session() {
    let zip = [0x50u8, 0x4B, 0x03, 0x04, 0x00];
    assert!(is_zip_archive(&zip));
    assert!(!is_zip_archive(&[0x50u8, 0x4B, 0x03]));
    assert!(!is_zip_archive(b"GIF89a"));
    assert_eq!(encode_profile(&zip), Some("UEsDBAA=".to_string()));
    assert_eq!(encode_profile(b"not a zip"), None);
    let copies = session_profiles("UEsDBAA=", 3);
    assert_eq!(copies, vec!["UEsDBAA=".to_string(); 3]);
    assert!(session_profiles("x", 0).is_empty());
}

#[test]
fn driver_output_and_arguments() {
    assert_eq!(chrome_driver_port_arg("9515"), "--port=9515");
    assert!(chrome_driver_started("ChromeDriver was started successfully."));
    assert!(!chrome_driver_started("Starting ChromeDriver"));
    assert!(gecko_driver_started("1700000000 webdriver::server INFO Listening on 127.0.0.1:4444"));
    assert!(!gecko_driver_started("geckodriver starting"));
    assert_eq!(chrome_driver_marker(), b"cdc_".to_vec());
    assert_eq!(gecko_marker(), b"webdriver".to_vec());
}

#[test]
fn marker_is_overwritten_with_random_characters() {
    let binary = b"xxcdc_yyyyyyzzcdc_ww".to_vec();
    assert_eq!(find_occurrences(&binary, b"cdc_"), vec![2, 14]);
    let patched = patch_with_random(binary.clone(), b"cdc_", 4).unwrap();
    assert_eq!(patched.len(), binary.len());
    assert_eq!(&patched[0..2], b"xx");
    assert_eq!(&patched[6..14], b"yyyyyyzz");
    assert_eq!(&patched[18..], b"ww");
    assert_eq!(&patched[2..6], &patched[14..18]);
    assert!(patched[2..6].iter().all(|b| b.is_ascii_alphanumeric()));
    assert!(patch_with_random(b"nothing here".to_vec(), b"cdc_", 4).is_none());
}

#[test]
fn session_plans() {
    let dirs = vec!["a".to_string(), "b".to_string()];
    let plan = ChromeSessionInitializer::session_plan(9515, &dirs);
    assert_eq!(plan, vec![("9515".to_string(), "a".to_string()), ("9515".to_string(), "b".to_string())]);
    let plan = GeckoSessionInitializer::session_plan("P", &vec![4444, 4445]);
    assert_eq!(plan, vec![("4444".to_string(), "P".to_string()), ("4445".to_string(), "P".to_string())]);
}
