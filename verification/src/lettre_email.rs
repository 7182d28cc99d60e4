//! Data shapes of the SMTP transactional-email module; the transport
//! itself is an external collaborator handled outside this crate.

use vstd::prelude::*;

verus! {

pub struct EmailConfig {
    pub smtp_host: String,
    pub smtp_port: u16,
    pub smtp_username: String,
    pub smtp_password: String,
    pub from_email: String,
    pub from_name: String,
}

pub struct SendEmailRequest {
    pub to: String,
    pub to_name: Option<String>,
    pub subject: String,
    pub body: String,
    pub html: Option<bool>,
}

pub struct PasswordResetRequest {
    pub to: String,
    pub to_name: Option<String>,
    pub reset_token: String,
    pub reset_url: String,
}

pub struct WelcomeEmailRequest {
    pub to: String,
    pub to_name: Option<String>,
}

pub struct EmailResponse {
    pub success: bool,
    pub message: String,
}

} // verus!
