//! Messages exchanged with the Azure work queues.
use vstd::prelude::*;
use crate::linkedin::api::json::Profile;

verus! {

/// Profiles to crawl, as dequeued from the profile queue.
pub struct ProfileIds {
    pub ids: Vec<String>,
    pub request_metadata: Option<String>,
}

/// Crawled profiles, as pushed to the manager.
pub struct CrawledProfiles {
    pub profiles: Vec<Profile>,
    pub request_metadata: Option<String>,
}

} // verus!
