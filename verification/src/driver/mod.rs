pub mod browser_config;
pub mod driver_capabilities;
pub mod driver_service;
pub mod session_initializer;
