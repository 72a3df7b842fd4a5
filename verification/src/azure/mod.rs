//! Signing requests to Azure Service Bus queues, and the labels of the
//! messages sent to the crawl manager.
pub mod json;

use vstd::prelude::*;
use vstd::utf8::encode_utf8;
use crate::outside::{
    base64_standard, base64_standard_encode, hmac_sha256, hmac_sha256_spec, percent_encoded,
    unix_time_secs, url_encode,
};
use crate::env::Env;
use crate::errors::ClientError;
use crate::text::{decimal, decimal_string};

verus! {

/// How long a token stays valid, in seconds.
pub const SAS_TOKEN_TTL_SECS: u64 = 60;

/// The text that is signed: the encoded resource URI, a newline, and the expiry.
pub open spec fn sas_string_to_sign(resource_uri: Seq<char>, expiry: u64) -> Seq<char> {
    percent_encoded(encode_utf8(resource_uri)) + "\n"@ + decimal(expiry as nat)
}

/// The signature: HMAC-SHA256 of the text to sign under the key, in base64.
pub open spec fn sas_signature(resource_uri: Seq<char>, sas_key: Seq<char>, expiry: u64) -> Seq<char> {
    base64_standard(hmac_sha256_spec(encode_utf8(sas_key), encode_utf8(sas_string_to_sign(resource_uri, expiry))))
}

/// A Shared Access Signature token for the resource, valid until `expiry`.
pub open spec fn sas_token_text(resource_uri: Seq<char>, sas_key_name: Seq<char>, sas_key: Seq<char>, expiry: u64) -> Seq<char> {
    "SharedAccessSignature sr="@ + percent_encoded(encode_utf8(resource_uri)) + "&sig="@
        + percent_encoded(encode_utf8(sas_signature(resource_uri, sas_key, expiry))) + "&se="@
        + decimal(expiry as nat) + "&skn="@ + sas_key_name
}

/// The error of a clock reading before 1970.
pub const CLOCK_BEFORE_EPOCH: &'static str = "system clock is before the Unix epoch";

/// The error of a clock reading less than a token lifetime before the end
/// of `u64` seconds, where the expiry cannot be written.
pub const CLOCK_PAST_END: &'static str = "system clock is past the last representable time";

/// Whether `m` is one of the two clock errors.
pub open spec fn is_clock_error(m: Seq<char>) -> bool {
    m == CLOCK_BEFORE_EPOCH@ || m == CLOCK_PAST_END@
}

/// The token signed at `now_secs` (seconds since the Unix epoch); it expires
/// a minute later. A moment whose expiry would pass the end of `u64`
/// seconds is refused.
pub fn create_sas_token_at(resource_uri: &str, sas_key_name: &str, sas_key: &str, now_secs: u64) -> (res: Result<String, &'static str>)
    ensures
        now_secs <= u64::MAX - SAS_TOKEN_TTL_SECS ==> (res matches Ok(t) && t@ == sas_token_text(
            resource_uri@,
            sas_key_name@,
            sas_key@,
            (now_secs + SAS_TOKEN_TTL_SECS) as u64,
        )),
        now_secs > u64::MAX - SAS_TOKEN_TTL_SECS ==> (res matches Err(m) && m@ == CLOCK_PAST_END@),
{
    if now_secs > u64::MAX - SAS_TOKEN_TTL_SECS {
        return Err(CLOCK_PAST_END);
    }
    let encoded_uri = url_encode(resource_uri);
    let ttl = now_secs + SAS_TOKEN_TTL_SECS;
    let ttl_text = decimal_string(ttl);
    let mut signature_str = encoded_uri.clone();
    signature_str.append("\n");
    signature_str.append(ttl_text.as_str());
    let key_bytes = sas_key.as_bytes();
    let tag = match hmac_sha256(key_bytes, signature_str.as_str().as_bytes()) {
        Some(tag) => tag,
        None => return Err("HMAC on SAS key failed"),
    };
    let hash = base64_standard_encode(tag.as_slice());
    let encoded_hash = url_encode(hash.as_str());
    let mut out = "SharedAccessSignature sr=".to_owned();
    out.append(encoded_uri.as_str());
    out.append("&sig=");
    out.append(encoded_hash.as_str());
    out.append("&se=");
    out.append(ttl_text.as_str());
    out.append("&skn=");
    out.append(sas_key_name);
    Ok(out)
}

/// A token for the resource signed at the clock's reading, together with
/// that reading in seconds since the Unix epoch (`None` for a clock before
/// 1970). The token expires `SAS_TOKEN_TTL_SECS` after the reading it
/// returns; a reading within a token lifetime of the end of `u64` seconds is
/// refused.
pub fn create_sas_token_now(resource_uri: &str, sas_key_name: &str, sas_key: &str) -> (res: (
    Result<String, &'static str>,
    Option<u64>,
))
    ensures
        match res.1 {
            None => res.0 matches Err(m) && m@ == CLOCK_BEFORE_EPOCH@,
            Some(now) => {
                &&& now <= u64::MAX - SAS_TOKEN_TTL_SECS ==> (res.0 matches Ok(t) && t@ == sas_token_text(
                    resource_uri@,
                    sas_key_name@,
                    sas_key@,
                    (now + SAS_TOKEN_TTL_SECS) as u64,
                ))
                &&& now > u64::MAX - SAS_TOKEN_TTL_SECS ==> (res.0 matches Err(m) && m@ == CLOCK_PAST_END@)
            },
        },
{
    let now = match unix_time_secs() {
        Some(now) => now,
        None => return (Err(CLOCK_BEFORE_EPOCH), None),
    };
    (create_sas_token_at(resource_uri, sas_key_name, sas_key, now), Some(now))
}

/// A token for the resource, signed now: the one `create_sas_token_now`
/// makes, which expires `SAS_TOKEN_TTL_SECS` after the clock's reading. The
/// only errors are the two clock errors, of a clock before 1970 or one
/// within a token lifetime of the end of `u64` seconds.
pub fn create_sas_token(resource_uri: &str, sas_key_name: &str, sas_key: &str) -> (res: Result<String, &'static str>)
    ensures
        res matches Ok(t) ==> exists|expiry: u64| t@ == sas_token_text(resource_uri@, sas_key_name@, sas_key@, expiry),
        res matches Ok(t) ==> exists|now: u64|
            now <= u64::MAX - SAS_TOKEN_TTL_SECS && t@ == #[trigger] sas_token_text(
                resource_uri@,
                sas_key_name@,
                sas_key@,
                (now + SAS_TOKEN_TTL_SECS) as u64,
            ),
        res matches Err(m) ==> is_clock_error(m@),
{
    let (token, _now) = create_sas_token_now(resource_uri, sas_key_name, sas_key);
    token
}

/// What a message pushed to the manager reports.
pub enum Label {
    ProfilesComplete,
    SearchComplete,
}

pub open spec fn label_text(l: Label) -> Seq<char> {
    match l {
        Label::ProfilesComplete => "profiles_complete"@,
        Label::SearchComplete => "search_complete"@,
    }
}

impl Label {
    /// The label as it is sent: `profiles_complete` or `search_complete`.
    pub fn to_display_string(&self) -> (res: String)
        ensures
            res@ == label_text(*self),
    {
        match self {
            Label::ProfilesComplete => "profiles_complete".to_owned(),
            Label::SearchComplete => "search_complete".to_owned(),
        }
    }
}

/// The `BrokerProperties` header of a bus message: `{"Label":"<label>"}`.
pub fn broker_properties(label: &Label) -> (res: String)
    ensures
        res@ == "{\"Label\":\""@ + label_text(*label) + "\"}"@,
{
    let mut out = "{\"Label\":\"".to_owned();
    let text = label.to_display_string();
    out.append(text.as_str());
    out.append("\"}");
    out
}

/// The queues and APIs the crawler talks to on Azure, and the keys that
/// sign its requests. The HTTP client itself lives outside the library.
pub struct AzureClient {
    pub manager_bus_uri: String,
    pub manager_bus_api: String,
    pub manager_bus_key: String,
    pub sas_key_name: String,
    pub sas_profile_key: String,
    pub sas_search_key: String,
    pub search_uri: String,
    pub search_dequeue_api: String,
    pub search_queue_api: String,
    pub profile_uri: String,
    pub profile_dequeue_api: String,
    pub manager_search_api: String,
    pub manager_profile_api: String,
}

/// What taking an item off a queue gave.
pub enum Dequeued<T> {
    /// The request could not be sent; the error's text.
    NotSent(String),
    /// The queue was empty (status 204).
    Empty,
    /// The item taken off.
    Item(T),
    /// The body could not be read as an item; the error's text.
    Unparsed(String),
}

/// How a push to a queue or the bus went.
pub enum Pushed {
    /// The request could not be sent; the error's text.
    NotSent(String),
    /// The service took the message.
    Accepted,
    /// The service answered with another status, and this body.
    Refused { status: u16, body: String },
}

impl AzureClient {
    /// The client for the settings in `env`. The queue that crawled profiles
    /// are pushed to is the one `AZURE_PROFILE_QUEUE_API` names.
    pub fn new(env: &Env) -> (res: AzureClient)
        ensures
            res.manager_bus_uri@ == env.azure_manager_bus_uri@,
            res.manager_bus_api@ == env.azure_manager_bus_api@,
            res.manager_bus_key@ == env.azure_manager_bus_key@,
            res.sas_key_name@ == env.azure_sas_key_name@,
            res.sas_profile_key@ == env.azure_sas_profile_key@,
            res.sas_search_key@ == env.azure_sas_search_key@,
            res.search_uri@ == env.azure_search_uri@,
            res.search_dequeue_api@ == env.azure_search_dequeue_api@,
            res.search_queue_api@ == env.azure_profile_queue_api@,
            res.profile_uri@ == env.azure_profile_uri@,
            res.profile_dequeue_api@ == env.azure_profile_dequeue_api@,
            res.manager_search_api@ == env.manager_search_api@,
            res.manager_profile_api@ == env.manager_profile_api@,
    {
        AzureClient {
            manager_bus_uri: env.azure_manager_bus_uri.clone(),
            manager_bus_api: env.azure_manager_bus_api.clone(),
            manager_bus_key: env.azure_manager_bus_key.clone(),
            sas_key_name: env.azure_sas_key_name.clone(),
            sas_profile_key: env.azure_sas_profile_key.clone(),
            sas_search_key: env.azure_sas_search_key.clone(),
            search_uri: env.azure_search_uri.clone(),
            search_dequeue_api: env.azure_search_dequeue_api.clone(),
            search_queue_api: env.azure_profile_queue_api.clone(),
            profile_uri: env.azure_profile_uri.clone(),
            profile_dequeue_api: env.azure_profile_dequeue_api.clone(),
            manager_search_api: env.manager_search_api.clone(),
            manager_profile_api: env.manager_profile_api.clone(),
        }
    }

    /// The token for the profile queue; a failure to sign is a request error.
    pub fn profile_queue_token(&self) -> (res: Result<String, ClientError>)
        ensures
            res matches Ok(t) ==> exists|expiry: u64|
                t@ == sas_token_text(self.profile_uri@, self.sas_key_name@, self.sas_profile_key@, expiry),
            res matches Err(e) ==> (e matches ClientError::RequestError(m) && is_clock_error(m@)),
    {
        match create_sas_token(self.profile_uri.as_str(), self.sas_key_name.as_str(), self.sas_profile_key.as_str()) {
            Ok(t) => Ok(t),
            Err(e) => Err(ClientError::RequestError(e.to_owned())),
        }
    }

    /// The token for the search queue; a failure to sign is a request error.
    pub fn search_queue_token(&self) -> (res: Result<String, ClientError>)
        ensures
            res matches Ok(t) ==> exists|expiry: u64|
                t@ == sas_token_text(self.search_uri@, self.sas_key_name@, self.sas_search_key@, expiry),
            res matches Err(e) ==> (e matches ClientError::RequestError(m) && is_clock_error(m@)),
    {
        match create_sas_token(self.search_uri.as_str(), self.sas_key_name.as_str(), self.sas_search_key.as_str()) {
            Ok(t) => Ok(t),
            Err(e) => Err(ClientError::RequestError(e.to_owned())),
        }
    }

    /// The token for pushing to the profile queue; a failure to sign is a
    /// request error about the push.
    pub fn push_queue_token(&self) -> (res: Result<String, ClientError>)
        ensures
            res matches Ok(t) ==> exists|expiry: u64|
                t@ == sas_token_text(self.profile_uri@, self.sas_key_name@, self.sas_profile_key@, expiry),
            res matches Err(e) ==> (e matches ClientError::RequestError(m) && exists|c: Seq<char>|
                is_clock_error(c) && m@ == "Failed to push search result "@ + c),
    {
        match create_sas_token(self.profile_uri.as_str(), self.sas_key_name.as_str(), self.sas_profile_key.as_str()) {
            Ok(t) => Ok(t),
            Err(e) => {
                let mut m = "Failed to push search result ".to_owned();
                m.append(e);
                proof {
                    assert(is_clock_error(e@));
                }
                Err(ClientError::RequestError(m))
            },
        }
    }

    /// The token for pushing to the manager's bus; a failure to sign is a
    /// request error about the push.
    pub fn push_bus_token(&self) -> (res: Result<String, ClientError>)
        ensures
            res matches Ok(t) ==> exists|expiry: u64|
                t@ == sas_token_text(self.manager_bus_uri@, self.sas_key_name@, self.manager_bus_key@, expiry),
            res matches Err(e) ==> (e matches ClientError::RequestError(m) && exists|c: Seq<char>|
                is_clock_error(c) && m@ == "Failed to push search result "@ + c),
    {
        match create_sas_token(self.manager_bus_uri.as_str(), self.sas_key_name.as_str(), self.manager_bus_key.as_str()) {
            Ok(t) => Ok(t),
            Err(e) => {
                let mut m = "Failed to push search result ".to_owned();
                m.append(e);
                proof {
                    assert(is_clock_error(e@));
                }
                Err(ClientError::RequestError(m))
            },
        }
    }

    /// Where a message with `label` goes to the manager.
    pub fn manager_api(&self, label: &Label) -> (res: &str)
        ensures
            res@ == match label {
                Label::SearchComplete => self.manager_search_api@,
                Label::ProfilesComplete => self.manager_profile_api@,
            },
    {
        match label {
            Label::SearchComplete => self.manager_search_api.as_str(),
            Label::ProfilesComplete => self.manager_profile_api.as_str(),
        }
    }
}

/// What taking an item off a queue means: nothing when it was empty, the
/// item, or a response error.
pub fn dequeue_outcome<T>(reply: Dequeued<T>) -> (res: Result<Option<T>, ClientError>)
    ensures
        match reply {
            Dequeued::NotSent(e) => res matches Err(ClientError::ResponseError(m)) && m@
                == "Failed to dequeue profile "@ + e@,
            Dequeued::Empty => res matches Ok(None),
            Dequeued::Item(item) => res matches Ok(Some(i)) && i == item,
            Dequeued::Unparsed(e) => res matches Err(ClientError::ResponseError(m)) && m@
                == "Failed to dequeue profile "@ + e@,
        },
{
    match reply {
        Dequeued::NotSent(e) => {
            let mut m = "Failed to dequeue profile ".to_owned();
            m.append(e.as_str());
            Err(ClientError::ResponseError(m))
        },
        Dequeued::Empty => Ok(None),
        Dequeued::Item(item) => Ok(Some(item)),
        Dequeued::Unparsed(e) => {
            let mut m = "Failed to dequeue profile ".to_owned();
            m.append(e.as_str());
            Err(ClientError::ResponseError(m))
        },
    }
}

/// What a push to the profile queue means.
pub fn queue_push_outcome(reply: Pushed) -> (res: Result<(), ClientError>)
    ensures
        match reply {
            Pushed::NotSent(e) => res matches Err(ClientError::ResponseError(m)) && m@ == "Failed to push to bus "@
                + e@,
            Pushed::Accepted => res is Ok,
            Pushed::Refused { status, body } => res matches Err(ClientError::ResponseError(m)) && m@
                == "Failed to push to queue with status "@ + decimal(status as nat) + " body "@ + body@,
        },
{
    match reply {
        Pushed::NotSent(e) => {
            let mut m = "Failed to push to bus ".to_owned();
            m.append(e.as_str());
            Err(ClientError::ResponseError(m))
        },
        Pushed::Accepted => Ok(()),
        Pushed::Refused { status, body } => {
            let mut m = "Failed to push to queue with status ".to_owned();
            let code = decimal_string(status as u64);
            m.append(code.as_str());
            m.append(" body ");
            m.append(body.as_str());
            Err(ClientError::ResponseError(m))
        },
    }
}

/// What a push to the manager's bus means.
pub fn bus_push_outcome(reply: Pushed) -> (res: Result<(), ClientError>)
    ensures
        match reply {
            Pushed::NotSent(e) => res matches Err(ClientError::ResponseError(m)) && m@
                == "Failed to push search result "@ + e@,
            Pushed::Accepted => res is Ok,
            Pushed::Refused { body, .. } => res matches Err(ClientError::ResponseError(m)) && m@
                == "Failed to push search result "@ + body@,
        },
{
    match reply {
        Pushed::NotSent(e) => {
            let mut m = "Failed to push search result ".to_owned();
            m.append(e.as_str());
            Err(ClientError::ResponseError(m))
        },
        Pushed::Accepted => Ok(()),
        Pushed::Refused { body, .. } => {
            let mut m = "Failed to push search result ".to_owned();
            m.append(body.as_str());
            Err(ClientError::ResponseError(m))
        },
    }
}

} // verus!
