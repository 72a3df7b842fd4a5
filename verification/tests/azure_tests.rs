use base64::Engine;
use hmac::Mac;
use omicron_crawler::azure::{
    broker_properties, bus_push_outcome, create_sas_token, create_sas_token_at, dequeue_outcome, queue_push_outcome,
    AzureClient, Dequeued, Label, Pushed,
};
use omicron_crawler::env::{Env, LogLevel};
use omicron_crawler::errors::ClientError;

fn expected_signature(key: &str, message: &str) -> String {
    let mut mac = hmac::Hmac::<sha2::Sha256>::new_from_slice(key.as_bytes()).unwrap();
    mac.update(message.as_bytes());
    let tag = mac.finalize().into_bytes();
    base64::prelude::BASE64_STANDARD.encode(tag)
}

fn env() -> Env {
    Env {
        log_level: LogLevel::Info,
        port: 8080,
        host: "127.0.0.1".to_string(),
        azure_search_uri: "search-uri".to_string(),
        azure_search_dequeue_api: "search-dequeue".to_string(),
        azure_profile_uri: "profile-uri".to_string(),
        azure_profile_dequeue_api: "profile-dequeue".to_string(),
        azure_profile_queue_api: "profile-queue".to_string(),
        azure_manager_bus_uri: "bus-uri".to_string(),
        azure_manager_bus_api: "bus-api".to_string(),
        azure_sas_key_name: "key-name".to_string(),
        azure_manager_bus_key: "bus-key".to_string(),
        azure_sas_profile_key: "profile-key".to_string(),
        azure_sas_search_key: "search-key".to_string(),
        manager_search_api: "manager-search".to_string(),
        manager_profile_api: "manager-profile".to_string(),
    }
}

fn response_error(e: ClientError) -> String {
    match e {
        ClientError::ResponseError(m) => m,
        _ => panic!("expected a response error"),
    }
}

#[test]
fn sas_token_signs_the_encoded_uri_and_expiry() {
    let uri = "https://ns.servicebus.windows.net/queue";
    let token = create_sas_token_at(uri, "RootManageSharedAccessKey", "secret", 1_700_000_000).ok().unwrap();
    let encoded_uri = "https%3A%2F%2Fns.servicebus.windows.net%2Fqueue";
    let signature = expected_signature("secret", &format!("{}\n1700000060", encoded_uri));
    let encoded_signature = signature.replace('+', "%2B").replace('/', "%2F").replace('=', "%3D");
    assert_eq!(
        token,
        format!(
            "SharedAccessSignature sr={}&sig={}&se=1700000060&skn=RootManageSharedAccessKey",
            encoded_uri, encoded_signature
        )
    );
}

#[test]
fn sas_token_now_has_the_expected_shape() {
    let token = create_sas_token("a b", "k", "s").ok().unwrap();
    assert!(token.starts_with("SharedAccessSignature sr=a%20b&sig="));
    assert!(token.ends_with("&skn=k"));
}

#[test]
fn labels_and_broker_properties() {
    assert_eq!(Label::ProfilesComplete.to_display_string(), "profiles_complete");
    assert_eq!(Label::SearchComplete.to_display_string(), "search_complete");
    assert_eq!(broker_properties(&Label::SearchComplete), "{\"Label\":\"search_complete\"}");
}

#[test]
fn azure_client_takes_its_settings_from_the_environment() {
    let c = AzureClient::new(&env());
    assert_eq!(c.search_queue_api, "profile-queue");
    assert_eq!(c.profile_dequeue_api, "profile-dequeue");
    assert_eq!(c.manager_bus_key, "bus-key");
    assert_eq!(c.manager_api(&Label::SearchComplete), "manager-search");
    assert_eq!(c.manager_api(&Label::ProfilesComplete), "manager-profile");
    let t = c.profile_queue_token().ok().unwrap();
    assert!(t.starts_with("SharedAccessSignature sr=profile-uri&sig="));
    let t = c.search_queue_token().ok().unwrap();
    assert!(t.starts_with("SharedAccessSignature sr=search-uri&sig="));
    let t = c.push_bus_token().ok().unwrap();
    assert!(t.ends_with("&skn=key-name"));
    assert!(c.push_queue_token().is_ok());
}

#[test]
fn dequeue_outcomes() {
    assert!(matches!(dequeue_outcome::<u32>(Dequeued::Empty), Ok(None)));
    assert!(matches!(dequeue_outcome(Dequeued::Item(7u32)), Ok(Some(7))));
    let m = response_error(dequeue_outcome::<u32>(Dequeued::NotSent("dns".to_string())).err().unwrap());
    assert_eq!(m, "Failed to dequeue profile dns");
    let m = response_error(dequeue_outcome::<u32>(Dequeued::Unparsed("eof".to_string())).err().unwrap());
    assert_eq!(m, "Failed to dequeue profile eof");
}

#[test]
fn push_outcomes() {
    assert!(queue_push_outcome(Pushed::Accepted).is_ok());
    let m = response_error(queue_push_outcome(Pushed::Refused { status: 401, body: "denied".to_string() }).err().unwrap());
    assert_eq!(m, "Failed to push to queue with status 401 body denied");
    let m = response_error(queue_push_outcome(Pushed::NotSent("dns".to_string())).err().unwrap());
    assert_eq!(m, "Failed to push to bus dns");
    assert!(bus_push_outcome(Pushed::Accepted).is_ok());
    let m = response_error(bus_push_outcome(Pushed::Refused { status: 500, body: "oops".to_string() }).err().unwrap());
    assert_eq!(m, "Failed to push search result oops");
    let m = response_error(bus_push_outcome(Pushed::NotSent("dns".to_string())).err().unwrap());
    assert_eq!(m, "Failed to push search result dns");
}

#[test]
fn sas_token_refuses_an_expiry_past_the_end_of_time() {
    match create_sas_token_at("uri", "k", "s", u64::MAX - 59) {
        Err(m) => assert_eq!(m, "system clock is past the last representable time"),
        Ok(_) => panic!("expected an error"),
    }
    assert!(create_sas_token_at("uri", "k", "s", u64::MAX - 60).is_ok());
}
