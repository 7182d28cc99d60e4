//! Core logic of an e-commerce backend that records payment-provider
//! webhook deliveries and materializes orders from them exactly once.
//!
//! The heart of the crate is the webhook ingestion pipeline: raw request
//! bytes are authenticated against the provider's signature scheme, the
//! JSON payload is parsed by the crate's own verified parser, events are
//! deduplicated against an append-only event store, and a canonical
//! order is created at most once per underlying payment. The pipeline's
//! guarantees are stated over the handler specs and proved in `laws`.
//!
//! Around that core stand the data shapes of the surrounding
//! application: admin authentication, payment creation, the email, SMS
//! and shipping integrations, and the storefront types.

pub mod strutil;
pub mod jsonval;
pub mod jsonparse;
pub mod crypto;
pub mod hexcode;
pub mod stripe_sig;
pub mod webhooks;
pub mod square;
pub mod stripe;
pub mod laws;

pub mod admin_auth;
pub mod api_types;
pub mod brevo_email;
pub mod easypost_shipping;
pub mod email;
pub mod letre_email;
pub mod lettre_email;
pub mod order_types;
pub mod product_types;
pub mod square_payments;
pub mod textbelt_sms;
pub mod user_types;
pub mod utils;

pub use strutil::str_eq;
