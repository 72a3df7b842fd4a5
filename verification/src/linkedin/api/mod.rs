pub mod client;
pub mod crawler;
pub mod json;
pub mod results;
pub mod search;
pub mod tracking_client;
pub mod rate_limits;
