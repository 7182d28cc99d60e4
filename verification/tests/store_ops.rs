// Direct tests of the event/order store operations.

use rcom_core::webhooks::{
    CreateOrder, CreateWebhookEvent, OrderStatus, PaymentProvider, WebhookStore,
};

fn event(event_id: &str) -> CreateWebhookEvent {
    CreateWebhookEvent {
        provider: PaymentProvider::Stripe,
        event_type: String::from("payment_intent.succeeded"),
        event_id: String::from(event_id),
        payload: String::from("{}"),
    }
}

fn order(payment_id: &str, intent: Option<&str>) -> CreateOrder {
    CreateOrder {
        payment_provider: PaymentProvider::Stripe,
        payment_id: String::from(payment_id),
        payment_intent_id: intent.map(String::from),
        customer_email: None,
        customer_name: None,
        total_amount: 100,
        currency: String::from("USD"),
        status: OrderStatus::Completed,
        webhook_event_id: Some(0),
    }
}

#[test]
fn logging_assigns_row_ids_and_refuses_duplicates() {
    let mut store = WebhookStore::new();
    assert!(!store.is_event_processed("e1"));
    assert_eq!(store.log_webhook_event(event("e1"), 10), Some(0));
    assert!(store.is_event_processed("e1"));
    assert_eq!(store.log_webhook_event(event("e2"), 11), Some(1));
    // The uniqueness constraint: the same event id is refused.
    assert_eq!(store.log_webhook_event(event("e1"), 12), None);
    assert_eq!(store.events.len(), 2);
    assert!(!store.events[0].processed);
    assert_eq!(store.events[0].created_at, 10);
}

#[test]
fn marking_is_terminal_and_keeps_the_row() {
    let mut store = WebhookStore::new();
    store.log_webhook_event(event("e1"), 10);
    store.mark_webhook_processed(0, false, Some(String::from("boom")), 20);
    assert!(store.events[0].processed);
    assert_eq!(store.events[0].processed_at, Some(20));
    assert_eq!(store.events[0].error_message.as_deref(), Some("boom"));
    assert_eq!(store.events[0].event_id, "e1");

    store.log_webhook_event(event("e2"), 11);
    store.mark_webhook_processed(1, true, None, 21);
    assert!(store.events[1].processed);
    assert!(store.events[1].error_message.is_none());
}

#[test]
fn order_creation_enforces_payment_and_intent_uniqueness() {
    let mut store = WebhookStore::new();
    assert!(store.create_order(order("p1", Some("i1")), 10).is_ok());
    // Same payment id: refused.
    assert!(store.create_order(order("p1", None), 11).is_err());
    // Different payment, same intent: refused.
    assert!(store.create_order(order("p2", Some("i1")), 12).is_err());
    // Fresh payment and intent: accepted.
    assert_eq!(store.create_order(order("p2", Some("i2")), 13), Ok(1));
    assert_eq!(store.orders.len(), 2);
    assert!(store.order_exists_by_payment(PaymentProvider::Stripe, "p1"));
    assert!(!store.order_exists_by_payment(PaymentProvider::Square, "p1"));
    assert!(store.order_exists_by_intent("i2"));
    assert!(!store.order_exists_by_intent("i9"));
}

#[test]
fn orders_without_intent_do_not_collide_on_intent() {
    let mut store = WebhookStore::new();
    assert!(store.create_order(order("p1", None), 1).is_ok());
    assert!(store.create_order(order("p2", None), 2).is_ok());
    assert_eq!(store.orders.len(), 2);
}
