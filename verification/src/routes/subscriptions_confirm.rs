use vstd::prelude::*;

verus! {

/// The query parameters of a subscription confirmation.
#[derive(Debug)]
pub struct Parameters {
    pub subscription_token: String,
}

} // verus!
