// End-to-end scenarios for the webhook ingestion pipeline, with real
// HMAC signatures computed the way the providers compute them.

use hmac::{Hmac, Mac};
use sha2::Sha256;
use base64::Engine;

use rcom_core::webhooks::{OrderStatus, PaymentProvider, VerificationError, WebhookResponse, WebhookStore};
use rcom_core::square::handle_square_webhook;
use rcom_core::stripe::handle_stripe_webhook;

const STRIPE_SECRET: &str = "whsec_test_secret";
const SQUARE_KEY: &str = "sq_signature_key";
const SQUARE_URL: &str = "https://shop.example.com/api/webhooks/square";

fn stripe_header(secret: &str, t: &str, body: &str) -> String {
    let mut mac = Hmac::<Sha256>::new_from_slice(secret.as_bytes()).unwrap();
    mac.update(t.as_bytes());
    mac.update(b".");
    mac.update(body.as_bytes());
    let tag = mac.finalize().into_bytes();
    let mut hex = String::new();
    for b in tag.iter() {
        hex.push_str(&format!("{:02x}", b));
    }
    format!("t={},v1={}", t, hex)
}

fn square_header(key: &str, url: &str, body: &str) -> String {
    let mut mac = Hmac::<Sha256>::new_from_slice(key.as_bytes()).unwrap();
    mac.update(url.as_bytes());
    mac.update(body.as_bytes());
    base64::engine::general_purpose::STANDARD.encode(mac.finalize().into_bytes())
}

const PI_BODY: &str = r#"{"id":"evt_1","type":"payment_intent.succeeded","data":{"object":{"object":"payment_intent","id":"pi_1","amount":2500,"currency":"usd","receipt_email":"a@b.com"}}}"#;

#[test]
fn stripe_payment_intent_succeeded_creates_order() {
    let mut store = WebhookStore::new();
    let header = stripe_header(STRIPE_SECRET, "1492774577", PI_BODY);
    let out = handle_stripe_webhook(&mut store, STRIPE_SECRET, Some(&header), PI_BODY, 1000);
    match out.response {
        WebhookResponse::Accepted { duplicate, error } => {
            assert!(!duplicate);
            assert!(error.is_none());
        }
        WebhookResponse::Rejected { status, message } => {
            panic!("rejected: {} {}", status, message)
        }
    }
    assert_eq!(store.events.len(), 1);
    assert_eq!(store.events[0].event_id, "evt_1");
    assert!(store.events[0].processed);
    assert!(store.events[0].error_message.is_none());
    assert_eq!(store.orders.len(), 1);
    let order = &store.orders[0];
    assert!(matches!(order.payment_provider, PaymentProvider::Stripe));
    assert_eq!(order.payment_id, "pi_1");
    assert_eq!(order.payment_intent_id.as_deref(), Some("pi_1"));
    assert_eq!(order.total_amount, 2500);
    assert_eq!(order.currency, "USD");
    assert_eq!(order.customer_email.as_deref(), Some("a@b.com"));
    assert!(matches!(order.status, OrderStatus::Completed));
    assert_eq!(order.webhook_event_id, Some(0));
    let notice = out.notification.expect("confirmation expected");
    assert_eq!(notice.email, "a@b.com");
    assert_eq!(notice.order_ref, "pi_1");
    assert_eq!(notice.amount, 2500);
}

#[test]
fn response_bodies_are_the_documented_json_texts() {
    let mut store = WebhookStore::new();
    let header = stripe_header(STRIPE_SECRET, "1492774577", PI_BODY);
    let first = handle_stripe_webhook(&mut store, STRIPE_SECRET, Some(&header), PI_BODY, 1000);
    assert_eq!(first.response.body_text(), r#"{"received":true}"#);
    let second = handle_stripe_webhook(&mut store, STRIPE_SECRET, Some(&header), PI_BODY, 2000);
    assert_eq!(second.response.body_text(), r#"{"received":true,"duplicate":true}"#);

    let err_body = r#"{"merchant_id":"m1","type":"payment.updated","event_id":"sq_b","created_at":"t","data":{"type":"payment","id":"x"}}"#;
    let sig = square_header(SQUARE_KEY, SQUARE_URL, err_body);
    let third = handle_square_webhook(&mut store, SQUARE_KEY, SQUARE_URL, Some(&sig), err_body, 1);
    assert_eq!(
        third.response.body_text(),
        r#"{"received":true,"error":"Missing payment object in event data"}"#
    );
}

#[test]
fn stripe_repeated_delivery_is_duplicate() {
    let mut store = WebhookStore::new();
    let header = stripe_header(STRIPE_SECRET, "1492774577", PI_BODY);
    let first = handle_stripe_webhook(&mut store, STRIPE_SECRET, Some(&header), PI_BODY, 1000);
    assert!(matches!(
        first.response,
        WebhookResponse::Accepted { duplicate: false, .. }
    ));
    let second = handle_stripe_webhook(&mut store, STRIPE_SECRET, Some(&header), PI_BODY, 2000);
    match second.response {
        WebhookResponse::Accepted { duplicate, error } => {
            assert!(duplicate);
            assert!(error.is_none());
        }
        _ => panic!("expected 200 duplicate"),
    }
    assert!(second.notification.is_none());
    assert_eq!(store.events.len(), 1);
    assert_eq!(store.orders.len(), 1);
}

#[test]
fn stripe_missing_signature_header_is_rejected() {
    let mut store = WebhookStore::new();
    let out = handle_stripe_webhook(&mut store, STRIPE_SECRET, None, PI_BODY, 1000);
    match out.response {
        WebhookResponse::Rejected { status, .. } => assert_eq!(status, 400),
        _ => panic!("expected rejection"),
    }
    assert_eq!(store.events.len(), 0);
    assert_eq!(store.orders.len(), 0);
}

#[test]
fn stripe_bad_signature_is_rejected() {
    let mut store = WebhookStore::new();
    let header = stripe_header("some_other_secret", "1492774577", PI_BODY);
    let out = handle_stripe_webhook(&mut store, STRIPE_SECRET, Some(&header), PI_BODY, 1000);
    match out.response {
        WebhookResponse::Rejected { status, .. } => assert_eq!(status, 400),
        _ => panic!("expected rejection"),
    }
    assert_eq!(store.events.len(), 0);
    assert_eq!(store.orders.len(), 0);
}

#[test]
fn stripe_tampered_body_is_rejected() {
    let mut store = WebhookStore::new();
    let header = stripe_header(STRIPE_SECRET, "1492774577", PI_BODY);
    let tampered = PI_BODY.replace("2500", "1");
    let out = handle_stripe_webhook(&mut store, STRIPE_SECRET, Some(&header), &tampered, 1000);
    assert!(matches!(
        out.response,
        WebhookResponse::Rejected { status: 400, .. }
    ));
    assert_eq!(store.events.len(), 0);
    assert_eq!(store.orders.len(), 0);
}

#[test]
fn stripe_unknown_event_type_is_logged_and_acknowledged() {
    let body = r#"{"id":"evt_9","type":"invoice.paid","data":{"object":{"object":"invoice","id":"in_1"}}}"#;
    let mut store = WebhookStore::new();
    let header = stripe_header(STRIPE_SECRET, "1492774577", body);
    let out = handle_stripe_webhook(&mut store, STRIPE_SECRET, Some(&header), body, 1000);
    match out.response {
        WebhookResponse::Accepted { duplicate, error } => {
            assert!(!duplicate);
            assert!(error.is_none());
        }
        _ => panic!("expected 200"),
    }
    assert_eq!(store.events.len(), 1);
    assert!(store.events[0].processed);
    assert_eq!(store.orders.len(), 0);
}

#[test]
fn stripe_charge_and_session_for_same_intent_create_one_order() {
    let charge_body = r#"{"id":"evt_c1","type":"charge.succeeded","data":{"object":{"object":"charge","id":"ch_1","amount":4200,"currency":"eur","payment_intent":"pi_shared","billing_details":{"email":"x@y.com","name":"Pat"}}}}"#;
    let session_body = r#"{"id":"evt_s1","type":"checkout.session.completed","data":{"object":{"object":"checkout.session","id":"cs_1","amount_total":4200,"currency":"eur","customer_email":"x@y.com","payment_intent":"pi_shared"}}}"#;

    // Charge first, then session.
    let mut store = WebhookStore::new();
    let h1 = stripe_header(STRIPE_SECRET, "111", charge_body);
    let h2 = stripe_header(STRIPE_SECRET, "222", session_body);
    let first = handle_stripe_webhook(&mut store, STRIPE_SECRET, Some(&h1), charge_body, 1);
    assert!(matches!(
        first.response,
        WebhookResponse::Accepted { duplicate: false, .. }
    ));
    let second = handle_stripe_webhook(&mut store, STRIPE_SECRET, Some(&h2), session_body, 2);
    match second.response {
        WebhookResponse::Accepted { duplicate, error } => {
            assert!(!duplicate);
            assert!(error.is_none());
        }
        _ => panic!("expected 200"),
    }
    assert_eq!(store.events.len(), 2);
    assert_eq!(store.orders.len(), 1);
    assert_eq!(store.orders[0].payment_id, "ch_1");
    assert_eq!(store.orders[0].payment_intent_id.as_deref(), Some("pi_shared"));
    assert_eq!(store.orders[0].currency, "EUR");

    // Session first, then charge.
    let mut store2 = WebhookStore::new();
    let third = handle_stripe_webhook(&mut store2, STRIPE_SECRET, Some(&h2), session_body, 1);
    assert!(matches!(
        third.response,
        WebhookResponse::Accepted { duplicate: false, .. }
    ));
    let fourth = handle_stripe_webhook(&mut store2, STRIPE_SECRET, Some(&h1), charge_body, 2);
    match fourth.response {
        WebhookResponse::Accepted { duplicate, error } => {
            assert!(!duplicate);
            assert!(error.is_none());
        }
        _ => panic!("expected 200"),
    }
    assert_eq!(store2.events.len(), 2);
    assert_eq!(store2.orders.len(), 1);
    assert_eq!(store2.orders[0].payment_id, "cs_1");
}

const SQUARE_COMPLETED_BODY: &str = r#"{"merchant_id":"m1","type":"payment.updated","event_id":"sq_evt_1","created_at":"2024-01-01T00:00:00Z","data":{"type":"payment","id":"pay_1","object":{"payment":{"id":"pay_1","status":"COMPLETED","amount_money":{"amount":1999,"currency":"usd"},"buyer_email_address":"b@c.com"}}}}"#;

#[test]
fn square_completed_payment_creates_order() {
    let mut store = WebhookStore::new();
    let sig = square_header(SQUARE_KEY, SQUARE_URL, SQUARE_COMPLETED_BODY);
    let out = handle_square_webhook(
        &mut store,
        SQUARE_KEY,
        SQUARE_URL,
        Some(&sig),
        SQUARE_COMPLETED_BODY,
        500,
    );
    match out.response {
        WebhookResponse::Accepted { duplicate, error } => {
            assert!(!duplicate);
            assert!(error.is_none());
        }
        WebhookResponse::Rejected { status, message } => {
            panic!("rejected: {} {}", status, message)
        }
    }
    assert_eq!(store.events.len(), 1);
    assert_eq!(store.events[0].event_id, "sq_evt_1");
    assert!(store.events[0].processed);
    assert_eq!(store.orders.len(), 1);
    let order = &store.orders[0];
    assert!(matches!(order.payment_provider, PaymentProvider::Square));
    assert_eq!(order.payment_id, "pay_1");
    assert_eq!(order.payment_intent_id, None);
    // Round-trip of the money fields: the integer cents unchanged, the
    // currency uppercased.
    assert_eq!(order.total_amount, 1999);
    assert_eq!(order.currency, "USD");
    assert_eq!(order.customer_email.as_deref(), Some("b@c.com"));
    let notice = out.notification.expect("confirmation expected");
    assert_eq!(notice.email, "b@c.com");
    assert_eq!(notice.order_ref, "pay_1");
    assert_eq!(notice.amount, 1999);
}

#[test]
fn square_repeated_delivery_is_duplicate() {
    let mut store = WebhookStore::new();
    let sig = square_header(SQUARE_KEY, SQUARE_URL, SQUARE_COMPLETED_BODY);
    handle_square_webhook(
        &mut store,
        SQUARE_KEY,
        SQUARE_URL,
        Some(&sig),
        SQUARE_COMPLETED_BODY,
        500,
    );
    let second = handle_square_webhook(
        &mut store,
        SQUARE_KEY,
        SQUARE_URL,
        Some(&sig),
        SQUARE_COMPLETED_BODY,
        600,
    );
    match second.response {
        WebhookResponse::Accepted { duplicate, error } => {
            assert!(duplicate);
            assert!(error.is_none());
        }
        _ => panic!("expected 200 duplicate"),
    }
    assert_eq!(store.events.len(), 1);
    assert_eq!(store.orders.len(), 1);
}

#[test]
fn square_invalid_signature_is_401_and_nothing_is_stored() {
    let mut store = WebhookStore::new();
    let out = handle_square_webhook(
        &mut store,
        SQUARE_KEY,
        SQUARE_URL,
        Some("not-the-signature"),
        SQUARE_COMPLETED_BODY,
        500,
    );
    match out.response {
        WebhookResponse::Rejected { status, .. } => assert_eq!(status, 401),
        _ => panic!("expected 401"),
    }
    assert!(out.notification.is_none());
    assert_eq!(store.events.len(), 0);
    assert_eq!(store.orders.len(), 0);
}

#[test]
fn square_missing_signature_is_400() {
    let mut store = WebhookStore::new();
    let out = handle_square_webhook(
        &mut store,
        SQUARE_KEY,
        SQUARE_URL,
        None,
        SQUARE_COMPLETED_BODY,
        500,
    );
    assert!(matches!(
        out.response,
        WebhookResponse::Rejected { status: 400, .. }
    ));
    assert_eq!(store.events.len(), 0);
    assert_eq!(store.orders.len(), 0);
}

#[test]
fn square_incomplete_payment_creates_no_order() {
    let body = SQUARE_COMPLETED_BODY.replace("COMPLETED", "PENDING");
    let mut store = WebhookStore::new();
    let sig = square_header(SQUARE_KEY, SQUARE_URL, &body);
    let out = handle_square_webhook(&mut store, SQUARE_KEY, SQUARE_URL, Some(&sig), &body, 500);
    match out.response {
        WebhookResponse::Accepted { duplicate, error } => {
            assert!(!duplicate);
            assert!(error.is_none());
        }
        _ => panic!("expected 200"),
    }
    assert_eq!(store.events.len(), 1);
    assert!(store.events[0].processed);
    assert_eq!(store.orders.len(), 0);
}

#[test]
fn square_payment_created_is_logged_only() {
    let body = r#"{"merchant_id":"m1","type":"payment.created","event_id":"sq_evt_2","created_at":"2024-01-01T00:00:00Z","data":{"type":"payment","id":"pay_2","object":{"payment":{"id":"pay_2","status":"APPROVED","amount_money":{"amount":100,"currency":"USD"}}}}}"#;
    let mut store = WebhookStore::new();
    let sig = square_header(SQUARE_KEY, SQUARE_URL, body);
    let out = handle_square_webhook(&mut store, SQUARE_KEY, SQUARE_URL, Some(&sig), body, 500);
    assert!(matches!(
        out.response,
        WebhookResponse::Accepted { duplicate: false, .. }
    ));
    assert_eq!(store.events.len(), 1);
    assert_eq!(store.orders.len(), 0);
}

#[test]
fn square_missing_payment_object_is_application_error() {
    let body = r#"{"merchant_id":"m1","type":"payment.updated","event_id":"sq_evt_3","created_at":"2024-01-01T00:00:00Z","data":{"type":"payment","id":"pay_3"}}"#;
    let mut store = WebhookStore::new();
    let sig = square_header(SQUARE_KEY, SQUARE_URL, body);
    let out = handle_square_webhook(&mut store, SQUARE_KEY, SQUARE_URL, Some(&sig), body, 500);
    match out.response {
        WebhookResponse::Accepted { duplicate, error } => {
            assert!(!duplicate);
            assert_eq!(error.as_deref(), Some("Missing payment object in event data"));
        }
        _ => panic!("expected 200 with error"),
    }
    assert_eq!(store.events.len(), 1);
    assert!(store.events[0].processed);
    assert_eq!(
        store.events[0].error_message.as_deref(),
        Some("Missing payment object in event data")
    );
    assert_eq!(store.orders.len(), 0);
}

#[test]
fn square_duplicate_payment_id_creates_one_order() {
    // Two distinct events for the same payment: the second lands on the
    // payment uniqueness constraint and is still success.
    let second_body = SQUARE_COMPLETED_BODY.replace("sq_evt_1", "sq_evt_other");
    let mut store = WebhookStore::new();
    let sig1 = square_header(SQUARE_KEY, SQUARE_URL, SQUARE_COMPLETED_BODY);
    let sig2 = square_header(SQUARE_KEY, SQUARE_URL, &second_body);
    handle_square_webhook(
        &mut store,
        SQUARE_KEY,
        SQUARE_URL,
        Some(&sig1),
        SQUARE_COMPLETED_BODY,
        1,
    );
    let out = handle_square_webhook(
        &mut store,
        SQUARE_KEY,
        SQUARE_URL,
        Some(&sig2),
        &second_body,
        2,
    );
    match out.response {
        WebhookResponse::Accepted { duplicate, error } => {
            assert!(!duplicate);
            assert!(error.is_none());
        }
        _ => panic!("expected 200"),
    }
    assert_eq!(store.events.len(), 2);
    assert_eq!(store.orders.len(), 1);
}

#[test]
fn verification_reports_the_exact_failure() {
    let header = stripe_header(STRIPE_SECRET, "1", PI_BODY);
    match rcom_core::stripe::verify_stripe_event(STRIPE_SECRET, Some(&header), PI_BODY) {
        Ok(e) => {
            assert_eq!(e.event_id, "evt_1");
            assert_eq!(e.event_type, "payment_intent.succeeded");
        }
        Err(_) => panic!("expected a verified event"),
    }
    assert!(matches!(
        rcom_core::stripe::verify_stripe_event(STRIPE_SECRET, None, PI_BODY),
        Err(VerificationError::MissingSignatureHeader)
    ));
    assert!(matches!(
        rcom_core::stripe::verify_stripe_event("wrong", Some(&header), PI_BODY),
        Err(VerificationError::SignatureMismatch)
    ));
    let bad_body = "{";
    let bad_header = stripe_header(STRIPE_SECRET, "1", bad_body);
    assert!(matches!(
        rcom_core::stripe::verify_stripe_event(STRIPE_SECRET, Some(&bad_header), bad_body),
        Err(VerificationError::MalformedPayload)
    ));

    let sig = square_header(SQUARE_KEY, SQUARE_URL, SQUARE_COMPLETED_BODY);
    match rcom_core::square::verify_square_event(
        SQUARE_KEY,
        SQUARE_URL,
        Some(&sig),
        SQUARE_COMPLETED_BODY,
    ) {
        Ok(e) => {
            assert_eq!(e.event_id, "sq_evt_1");
            let payment = e.data.object.unwrap().payment.unwrap();
            assert_eq!(payment.status, "COMPLETED");
            assert_eq!(payment.amount_money.amount, 1999);
        }
        Err(_) => panic!("expected a verified event"),
    }
    assert!(matches!(
        rcom_core::square::verify_square_event(
            SQUARE_KEY,
            SQUARE_URL,
            Some("nope"),
            SQUARE_COMPLETED_BODY
        ),
        Err(VerificationError::SignatureMismatch)
    ));
}

#[test]
fn malformed_json_after_valid_signature_is_400() {
    let body = "{not json";
    let mut store = WebhookStore::new();
    let sig = square_header(SQUARE_KEY, SQUARE_URL, body);
    let out = handle_square_webhook(&mut store, SQUARE_KEY, SQUARE_URL, Some(&sig), body, 1);
    assert!(matches!(
        out.response,
        WebhookResponse::Rejected { status: 400, .. }
    ));
    assert_eq!(store.events.len(), 0);
}
