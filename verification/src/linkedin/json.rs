//! Bodies sent to LinkedIn outside the Voyager API.
pub mod req;
