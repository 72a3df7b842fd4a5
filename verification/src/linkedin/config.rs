//! Which LinkedIn endpoint a build talks to.
use vstd::prelude::*;

verus! {

/// Where the API lives, which domain its cookies belong to, and where they
/// are kept on disk.
pub trait ApiConfig {
    const API_URL: &'static str;
    const COOKIE_DOMAIN: &'static str;
    const COOKIE_FOLDER: &'static str;
}

/// A local stand-in of the service.
pub struct TestConfig;

impl ApiConfig for TestConfig {
    const API_URL: &'static str = "127.0.0.1:9090";
    const COOKIE_DOMAIN: &'static str = "127.0.0.1";
    const COOKIE_FOLDER: &'static str = "cookies/";
}

/// The real service.
pub struct ProdConfig;

impl ApiConfig for ProdConfig {
    const API_URL: &'static str = "https://www.linkedin.com";
    const COOKIE_DOMAIN: &'static str = "www.linkedin.com";
    const COOKIE_FOLDER: &'static str = "cookies/";
}

} // verus!
