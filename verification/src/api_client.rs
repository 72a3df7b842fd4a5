//! The three clients a crawler works with, kept together.
use vstd::prelude::*;

verus! {

/// A LinkedIn client, an Azure client and a 2Captcha client. Each is the
/// caller's own type: the network side of all three lives outside the
/// library.
pub struct ApiClient<L, A, T> {
    pub linkedin_client: L,
    pub azure_client: A,
    pub two_captcha_client: T,
}

impl<L, A, T> ApiClient<L, A, T> {
    pub fn new(linkedin_client: L, azure_client: A, two_captcha_client: T) -> (res: Self)
        ensures
            res.linkedin_client == linkedin_client,
            res.azure_client == azure_client,
            res.two_captcha_client == two_captcha_client,
    {
        ApiClient { linkedin_client, azure_client, two_captcha_client }
    }
}

} // verus!
