//! What is sent to 2Captcha.
use vstd::prelude::*;

verus! {

/// The kind of proxy a task goes through.
#[derive(Clone, Copy, PartialEq, Eq, Structural)]
pub enum ProxyType {
    Http,
    Https,
}

pub open spec fn proxy_type_text(p: ProxyType) -> Seq<char> {
    match p {
        ProxyType::Http => "http"@,
        ProxyType::Https => "https"@,
    }
}

impl ProxyType {
    /// How the proxy type is written: `http` or `https`.
    pub fn to_display_string(&self) -> (res: String)
        ensures
            res@ == proxy_type_text(*self),
    {
        proof {
            reveal_strlit("http");
            reveal_strlit("https");
        }
        match self {
            ProxyType::Http => "http".to_owned(),
            ProxyType::Https => "https".to_owned(),
        }
    }
}

/// One of the two FunCaptcha task kinds.
pub enum Task {
    FunCaptchaTaskProxyless(FunCaptchaTaskProxyless),
    FunCaptchaTask(FunCaptchaTask),
}

/// A task together with the account key it is charged to.
pub struct TwoCaptcha {
    pub client_key: String,
    pub task: Task,
}

/// A FunCaptcha task solved from 2Captcha's own addresses.
pub struct FunCaptchaTaskProxyless {
    pub website_url: String,
    pub website_public_key: String,
    pub funcaptcha_api_js_subdomain: Option<String>,
    pub user_agent: String,
}

/// A FunCaptcha task solved through the given proxy.
pub struct FunCaptchaTask {
    pub website_url: String,
    pub website_public_key: String,
    pub funcaptcha_api_jssubdomain: Option<String>,
    pub user_agent: String,
    pub proxy_type: ProxyType,
    pub proxy_address: String,
    pub proxy_port: String,
    pub proxy_login: String,
    pub proxy_password: String,
}

/// The request for the state of a task.
pub struct TaskCheck {
    pub client_key: String,
    pub task_id: u32,
}

} // verus!
