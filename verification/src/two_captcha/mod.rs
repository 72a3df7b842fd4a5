//! Requests to the 2Captcha service, which solves FunCaptcha challenges.
//! The library decides what each request carries and where it goes; the
//! HTTP exchange happens outside it.
use vstd::prelude::*;
use crate::two_captcha::req::{FunCaptchaTask, FunCaptchaTaskProxyless, ProxyType, TaskCheck};

pub mod config;
pub mod req;
pub mod res;

verus! {

/// Base address of the 2Captcha API.
pub const API_URL: &'static str = "https://api.2captcha.com";

/// Where new tasks are posted.
pub fn create_task_url() -> (res: String)
    ensures
        res@ == API_URL@ + "/createTask"@,
{
    let mut url = API_URL.to_owned();
    url.append("/createTask");
    url
}

/// Where the result of a task is asked for.
pub fn task_result_url() -> (res: String)
    ensures
        res@ == API_URL@ + "/getTaskResult"@,
{
    let mut url = API_URL.to_owned();
    url.append("/getTaskResult");
    url
}

/// A client that has the captcha solved through the caller's own proxy.
pub struct ProxyClient {
    pub client_key: String,
    pub proxy_addr: String,
    pub proxy_port: String,
    pub username: String,
    pub password: String,
    pub user_agent: String,
    pub proxy_type: ProxyType,
}

impl ProxyClient {
    pub fn new(
        proxy_addr: &str,
        proxy_port: &str,
        username: &str,
        password: &str,
        proxy_type: ProxyType,
        client_key: &str,
        user_agent: &str,
    ) -> (res: ProxyClient)
        ensures
            res.proxy_addr@ == proxy_addr@,
            res.proxy_port@ == proxy_port@,
            res.username@ == username@,
            res.password@ == password@,
            res.proxy_type == proxy_type,
            res.client_key@ == client_key@,
            res.user_agent@ == user_agent@,
    {
        ProxyClient {
            client_key: client_key.to_owned(),
            proxy_addr: proxy_addr.to_owned(),
            proxy_port: proxy_port.to_owned(),
            username: username.to_owned(),
            password: password.to_owned(),
            user_agent: user_agent.to_owned(),
            proxy_type,
        }
    }

    /// The task posted to have the captcha of `website_url` solved: the
    /// site's key and address, and this client's proxy and browser.
    pub fn solve_task(&self, website_public_key: &str, website_url: &str, subdomain: Option<String>) -> (res:
        FunCaptchaTask)
        ensures
            res.website_public_key@ == website_public_key@,
            res.website_url@ == website_url@,
            res.funcaptcha_api_jssubdomain == subdomain,
            res.user_agent@ == self.user_agent@,
            res.proxy_type == self.proxy_type,
            res.proxy_address@ == self.proxy_addr@,
            res.proxy_port@ == self.proxy_port@,
            res.proxy_login@ == self.username@,
            res.proxy_password@ == self.password@,
    {
        FunCaptchaTask {
            proxy_password: self.password.clone(),
            proxy_login: self.username.clone(),
            proxy_address: self.proxy_addr.clone(),
            proxy_port: self.proxy_port.clone(),
            website_public_key: website_public_key.to_owned(),
            website_url: website_url.to_owned(),
            user_agent: self.user_agent.clone(),
            proxy_type: self.proxy_type,
            funcaptcha_api_jssubdomain: subdomain,
        }
    }

    /// The request asking for the result of task `task_id`.
    pub fn result_check(&self, task_id: u32) -> (res: TaskCheck)
        ensures
            res.client_key@ == self.client_key@,
            res.task_id == task_id,
    {
        TaskCheck { client_key: self.client_key.clone(), task_id }
    }
}

/// A client that has the captcha solved without a proxy.
pub struct ProxyLessClient {
    pub client_key: String,
    pub user_agent: String,
}

impl ProxyLessClient {
    pub fn new(user_agent: &str, client_key: &str) -> (res: ProxyLessClient)
        ensures
            res.client_key@ == client_key@,
            res.user_agent@ == user_agent@,
    {
        ProxyLessClient { client_key: client_key.to_owned(), user_agent: user_agent.to_owned() }
    }

    /// The task posted to have the captcha of `website_url` solved.
    pub fn solve_task(&self, website_public_key: &str, website_url: &str, subdomain: Option<String>) -> (res:
        FunCaptchaTaskProxyless)
        ensures
            res.website_public_key@ == website_public_key@,
            res.website_url@ == website_url@,
            res.funcaptcha_api_js_subdomain == subdomain,
            res.user_agent@ == self.user_agent@,
    {
        FunCaptchaTaskProxyless {
            website_public_key: website_public_key.to_owned(),
            website_url: website_url.to_owned(),
            user_agent: self.user_agent.clone(),
            funcaptcha_api_js_subdomain: subdomain,
        }
    }

    /// The request asking for the result of task `task_id`.
    pub fn result_check(&self, task_id: u32) -> (res: TaskCheck)
        ensures
            res.client_key@ == self.client_key@,
            res.task_id == task_id,
    {
        TaskCheck { client_key: self.client_key.clone(), task_id }
    }
}

} // verus!
