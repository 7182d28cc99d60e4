//! Request and response shapes of the admin authentication flow. The
//! flow itself (password hashing, TOTP, JWT issuance) is an external
//! collaborator; only its data shapes are part of this crate.

use vstd::prelude::*;

verus! {

pub struct RegisterRequest {
    pub username: String,
    pub password: String,
}

pub struct LoginRequest {
    pub username: String,
    pub password: String,
}

pub struct TotpVerifyRequest {
    pub username: String,
    pub code: String,
}

pub struct TotpSetupResponse {
    pub secret: String,
    pub qr_url: String,
}

pub struct JwtResponse {
    pub token: String,
}

/// The identity a validated bearer token proves.
pub struct AuthenticatedAdmin {
    pub username: String,
}

/// JWT claims: the subject and the expiry timestamp.
pub struct Claims {
    pub sub: String,
    pub exp: usize,
}

} // verus!
