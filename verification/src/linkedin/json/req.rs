//! The account creation request.
use vstd::prelude::*;

verus! {

/// The form of a new account; the last two fields are set when a challenge
/// was answered.
pub struct Signup {
    pub first_name: String,
    pub last_name: String,
    pub email_address: String,
    pub password: String,
    pub submission_id: Option<String>,
    pub resolved_challenge_url: Option<String>,
}

} // verus!
