//! Answers to an account creation request.
use vstd::prelude::*;

verus! {

/// The account needs a challenge solved first.
pub struct SignupChallenge {
    pub submission_id: String,
    pub challenge_url: String,
}

/// The account was created.
pub struct SignupSuccess {
    pub submission_id: String,
    pub redirect_url: String,
    pub member_urn: String,
}

/// Either answer.
pub enum Signup {
    Challenge(SignupChallenge),
    Success(SignupSuccess),
}

} // verus!
