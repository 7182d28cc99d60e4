//! Data shapes of the Letre email-marketing integration, a thin REST
//! pass-through handled outside this crate.

use vstd::prelude::*;

verus! {

pub struct SubscribeRequest {
    pub email: String,
    pub first_name: Option<String>,
    pub last_name: Option<String>,
    pub source: Option<String>,
}

pub struct LetreSubscribeRequest {
    pub email: String,
    pub first_name: Option<String>,
    pub last_name: Option<String>,
    pub tags: Vec<String>,
    pub double_optin: bool,
    pub send_welcome: bool,
}

pub struct EmailCampaignRequest {
    pub subject: String,
    pub content: String,
    pub recipient_tags: Vec<String>,
    pub send_immediately: Option<bool>,
    pub scheduled_at: Option<String>,
}

pub struct LetreRecipientFilter {
    pub tags: Vec<String>,
    pub include_all_tags: bool,
}

pub struct LetreCampaignRequest {
    pub name: String,
    pub subject: String,
    pub content: String,
    pub recipient_filter: LetreRecipientFilter,
    pub send_immediately: bool,
    pub scheduled_at: Option<String>,
}

pub struct EmailResponse {
    pub success: bool,
    pub message: String,
    pub id: Option<String>,
}

} // verus!
