//! The arguments of the undetected Chrome driver sessions.
use vstd::prelude::*;
use crate::driver::driver_capabilities::{chrome_undetected_args, get_chrome_undetected_args};

verus! {

/// The arguments an undetected Chrome session is started with: the same as
/// headless Chrome's.
pub fn get_undetected_chromedriver_args() -> (res: Vec<&'static str>)
    ensures
        res@.map_values(|a: &str| a@) == chrome_undetected_args(),
{
    get_chrome_undetected_args()
}

} // verus!
