//! Small helpers shared by the crawler.
use vstd::prelude::*;
use crate::outside::{is_ascii_alphanumeric, random_alphanumeric};

verus! {

/// A random string of `length` ASCII letters and digits.
pub fn generate_random_string(length: usize) -> (res: String)
    ensures
        res@.len() == length,
        forall|i: int| 0 <= i < res@.len() ==> is_ascii_alphanumeric(#[trigger] res@[i]),
{
    random_alphanumeric(length)
}

} // verus!
