//! Verified core of a LinkedIn crawler: profile models, search query
//! construction, rate limiting, request signing and session pooling.
pub mod text;
pub mod api_client;
pub mod outside;
pub mod errors;
pub mod exchange;
pub mod config;
pub mod env;
pub mod azure;
pub mod driver;
pub mod driver_session;
pub mod linkedin;
pub mod session_pool;
pub mod two_captcha;
pub mod utils;
