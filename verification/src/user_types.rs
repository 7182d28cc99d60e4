//! Storefront user and authentication types.

use vstd::prelude::*;

verus! {

#[derive(Clone, Debug)]
pub struct User {
    pub id: i32,
    pub email: String,
    pub name: Option<String>,
}

#[derive(Clone, Debug)]
pub struct LoginRequest {
    pub email: String,
    pub password: String,
}

#[derive(Clone, Debug)]
pub struct RegisterRequest {
    pub email: String,
    pub password: String,
    pub name: Option<String>,
}

#[derive(Clone, Debug)]
pub struct AuthResponse {
    pub token: String,
    pub user: User,
}

} // verus!
