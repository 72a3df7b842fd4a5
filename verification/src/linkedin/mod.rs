pub mod api;
pub mod config;
pub mod json;
pub mod enums;
pub mod profiles;
pub mod rate_limits;
pub mod utils;
pub mod web_driver;
