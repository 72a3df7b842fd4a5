//! How an HTTP exchange made outside the library went.
use vstd::prelude::*;

verus! {

/// How one HTTP exchange went, as far as the caller needs to know.
pub enum Exchange<T> {
    /// The request could not be sent; the error's text.
    NotSent(String),
    /// A success status with a body that was read and understood.
    Answered(T),
    /// A success status whose body could not be read or understood; the
    /// error's text.
    Unparsed(String),
    /// Any other status, with the body's text or the error reading it.
    Rejected { status: String, body: Result<String, String> },
}

/// The body text of a rejection, or the error met reading it.
pub open spec fn body_text(body: Result<String, String>) -> Seq<char> {
    match body {
        Ok(t) => t@,
        Err(t) => t@,
    }
}

pub fn take_body(body: Result<String, String>) -> (res: String)
    ensures
        res@ == body_text(body),
{
    match body {
        Ok(t) => t,
        Err(t) => t,
    }
}

} // verus!
