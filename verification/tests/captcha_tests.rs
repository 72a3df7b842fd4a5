use omicron_crawler::two_captcha::req::ProxyType;
use omicron_crawler::two_captcha::res::{Error, Status};
use omicron_crawler::two_captcha::{create_task_url, task_result_url, ProxyClient, ProxyLessClient};

#[test]
fn task_addresses() {
    assert_eq!(create_task_url(), "https://api.2captcha.com/createTask");
    assert_eq!(task_result_url(), "https://api.2captcha.com/getTaskResult");
}

#[test]
fn proxy_client_task_carries_the_proxy() {
    let c = ProxyClient::new("1.2.3.4", "8080", "user", "pass", ProxyType::Https, "key", "UA");
    let t = c.solve_task("PUBKEY", "https://site", Some("sub".to_string()));
    assert_eq!(t.website_public_key, "PUBKEY");
    assert_eq!(t.website_url, "https://site");
    assert_eq!(t.funcaptcha_api_jssubdomain, Some("sub".to_string()));
    assert_eq!(t.user_agent, "UA");
    assert!(t.proxy_type == ProxyType::Https);
    assert_eq!(t.proxy_address, "1.2.3.4");
    assert_eq!(t.proxy_port, "8080");
    assert_eq!(t.proxy_login, "user");
    assert_eq!(t.proxy_password, "pass");
    let check = c.result_check(77);
    assert_eq!(check.client_key, "key");
    assert_eq!(check.task_id, 77);
}

#[test]
fn proxyless_client_task() {
    let c = ProxyLessClient::new("UA", "key");
    let t = c.solve_task("PUBKEY", "https://site", None);
    assert_eq!(t.website_public_key, "PUBKEY");
    assert_eq!(t.user_agent, "UA");
    assert_eq!(t.funcaptcha_api_js_subdomain, None);
    assert_eq!(c.result_check(5).client_key, "key");
}

#[test]
fn labels_and_error_codes() {
    assert_eq!(ProxyType::Http.to_display_string(), "http");
    assert_eq!(ProxyType::Https.to_display_string(), "https");
    assert_eq!(Status::Processing.to_display_string(), "processing");
    assert_eq!(Status::Ready.to_display_string(), "ready");
    assert_eq!(Status::Error.to_display_string(), "error");
    assert_eq!(Error::ErrorKeyDoesNotExist.code(), 1);
    assert_eq!(Error::ErrorZeroBalance.code(), 10);
    assert_eq!(Error::ErrorBadProxy.code(), 130);
    assert_eq!(Error::ErrorBadParameters.code(), 110);
    assert!(Error::from_code(55) == Some(Error::ErrorAccountSuspended));
    assert!(Error::from_code(6).is_none());
}
