//! Shapes of the storefront's calls to the backend API.

use vstd::prelude::*;

verus! {

#[derive(Clone, Debug)]
pub struct PaymentIntentRequest {
    pub amount: i64,
    pub currency: String,
}

#[derive(Clone, Debug)]
pub struct PaymentIntentResponse {
    pub client_secret: String,
}

/// An API call's failure: the response status (zero for a transport
/// failure) and the message.
#[derive(Clone, Debug)]
pub struct ApiError {
    pub message: String,
    pub status: u16,
}

} // verus!
