//! Messages a crawling session reports back.
use vstd::prelude::*;
use crate::errors::CrawlerError;
use crate::linkedin::api::json::{Profile, SearchResult};

verus! {

/// What a crawling session reports: a finished search, a fetched profile,
/// a profile that could not be read, or the end of its work.
pub enum Commands {
    SearchReady(Result<SearchResult, CrawlerError>),
    ProfileReady(Result<Profile, CrawlerError>),
    ProfileUnparsed(String),
    End,
}

} // verus!
