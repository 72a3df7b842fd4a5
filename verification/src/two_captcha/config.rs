//! Which 2Captcha endpoint a build talks to.
use vstd::prelude::*;

verus! {

/// The address of the 2Captcha API a client talks to.
pub trait ApiConfig {
    const API_URL: &'static str;
}

/// A local stand-in of the service.
pub struct TestConfig;

impl ApiConfig for TestConfig {
    const API_URL: &'static str = "127.0.0.1:9090";
}

/// The real service.
pub struct ProdConfig;

impl ApiConfig for ProdConfig {
    const API_URL: &'static str = "https://api.2captcha.com";
}

} // verus!
