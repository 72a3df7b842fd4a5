use omicron_crawler::config::Config;
use omicron_crawler::env::{driver_port_from, log_level_from, port_from, required_u16_from, session_count_from, LogLevel};

#[test]
fn example_config_has_two_placeholder_accounts() {
    let c = Config::example();
    assert_eq!(c.sessions.len(), 2);
    assert_eq!(c.sessions[0].username, "<username1>");
    assert_eq!(c.sessions[0].password, "<password1>");
    assert_eq!(c.sessions[0].proxy, "<proxy1>");
    assert_eq!(c.sessions[0].proxy_username, "<proxy_username1>");
    assert_eq!(c.sessions[0].proxy_password, "<proxy_password1>");
    assert_eq!(c.sessions[1].username, "<username2>");
    assert_eq!(c.sessions[1].proxy_password, "<proxy_password2>");
}

#[test]
fn log_level_names_and_fallback() {
    assert!(log_level_from(Some("TRACE")) == LogLevel::Trace);
    assert!(log_level_from(Some("DEBUG")) == LogLevel::Debug);
    assert!(log_level_from(Some("WARN")) == LogLevel::Warn);
    assert!(log_level_from(Some("ERROR")) == LogLevel::Error);
    assert!(log_level_from(Some("INFO")) == LogLevel::Info);
    assert!(log_level_from(Some("debug")) == LogLevel::Info);
    assert!(log_level_from(None) == LogLevel::Info);
}

#[test]
fn port_falls_back_to_8080() {
    assert_eq!(port_from(Some("9000")), 9000);
    assert_eq!(port_from(Some("+81")), 81);
    assert_eq!(port_from(Some("70000")), 8080);
    assert_eq!(port_from(Some("abc")), 8080);
    assert_eq!(port_from(Some("")), 8080);
    assert_eq!(port_from(None), 8080);
}

#[test]
fn driver_settings_use_their_defaults() {
    assert_eq!(driver_port_from(None), Some(9515));
    assert_eq!(driver_port_from(Some("4444")), Some(4444));
    assert_eq!(driver_port_from(Some("x")), None);
    assert_eq!(session_count_from(None), Some(1));
    assert_eq!(session_count_from(Some("3")), Some(3));
    assert_eq!(session_count_from(Some("-1")), None);
    assert_eq!(required_u16_from(None, "12"), Some(12));
}
