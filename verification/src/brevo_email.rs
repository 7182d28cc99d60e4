//! Data shapes of the Brevo email integration, a thin REST pass-through
//! handled outside this crate.

use vstd::prelude::*;

verus! {

#[derive(Clone, Debug)]
pub struct BrevoConfig {
    pub api_key: String,
    pub api_base_url: String,
    pub from_email: String,
    pub from_name: String,
}

#[derive(Clone, Debug)]
pub struct EmailAddress {
    pub email: String,
    pub name: Option<String>,
}

#[derive(Debug)]
pub struct BrevoApiResponse {
    pub message_id: Option<String>,
    pub message: Option<String>,
}

#[derive(Debug)]
pub struct SendEmailRequest {
    pub to_email: String,
    pub to_name: Option<String>,
    pub subject: String,
    pub html_content: String,
    pub text_content: Option<String>,
    pub tags: Option<Vec<String>>,
}

#[derive(Debug)]
pub struct SendMarketingCampaignRequest {
    pub recipients: Vec<EmailAddress>,
    pub subject: String,
    pub html_content: String,
    pub campaign_name: String,
}

} // verus!
