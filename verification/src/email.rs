//! The email-service abstraction the application plugs providers into.
//! SMTP- and REST-backed implementations live with the application; the
//! stub services for providers that are not integrated yet live here and
//! always report failure.

use vstd::prelude::*;

verus! {

/// A transactional email sender the application may implement.
pub trait EmailService {
    fn send_email(&self, to: &str, subject: &str, body: &str) -> Result<(), String>;
}

/// Stub: the MailChimp integration is not available.
pub struct MailChimpEmailService;

impl EmailService for MailChimpEmailService {
    fn send_email(&self, _to: &str, _subject: &str, _body: &str) -> Result<(), String> {
        Err(String::from_str("MailChimp integration not yet implemented"))
    }
}

/// Stub: the SalesForce Marketing Cloud integration is not available.
pub struct SalesForceEmailService;

impl EmailService for SalesForceEmailService {
    fn send_email(&self, _to: &str, _subject: &str, _body: &str) -> Result<(), String> {
        Err(String::from_str("SalesForce Marketing Cloud integration not yet implemented"))
    }
}

/// Stub: the Acoustic integration is not available.
pub struct AcousticEmailService;

impl EmailService for AcousticEmailService {
    fn send_email(&self, _to: &str, _subject: &str, _body: &str) -> Result<(), String> {
        Err(String::from_str("Acoustic integration not yet implemented"))
    }
}

} // verus!
