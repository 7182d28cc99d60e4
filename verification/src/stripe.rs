//! Stripe webhook processing.
//!
//! A delivery is authenticated against the `stripe-signature` header
//! (see `stripe_sig`), on the raw body text, before anything is parsed —
//! re-serializing JSON would change the signed bytes. The verified body
//! is parsed into `StripeEvent`; `payment_intent.succeeded`,
//! `charge.succeeded` and `checkout.session.completed` materialize an
//! order at most once per payment and per payment intent, and every
//! other event type is logged and acknowledged without effect.

use vstd::prelude::*;

use crate::jsonparse::sp_json;
use crate::jsonval::{Json, JsonM, json_view, m_field, m_int_field, m_str_field, obj_get};
use crate::strutil::{ascii_upper, ascii_upper_string, str_eq};
use crate::stripe_sig::{stripe_sig_ok, stripe_verify};
use crate::webhooks::{
    CreateOrder, CreateOrderV, CreateWebhookEvent, CreateWebhookEventV, HandlerOutcome,
    OrderConfirmation, OrderConfirmationV, OrderConflict, OrderStatus, PaymentProvider,
    VerificationError, WebhookResponse, WebhookResponseV, WebhookStore, WebhookStoreV, has_event,
    opt_conf_view, opt_str_view, opt_view, order_conflict, store_wf, with_logged, with_marked,
    with_order,
};

verus! {

pub struct StripePaymentIntentV {
    pub id: Seq<char>,
    pub amount: int,
    pub currency: Seq<char>,
    pub receipt_email: Option<Seq<char>>,
}

/// A `payment_intent` object, reduced to what the materializer reads.
pub struct StripePaymentIntent {
    pub id: String,
    pub amount: i64,
    pub currency: String,
    pub receipt_email: Option<String>,
}

impl View for StripePaymentIntent {
    type V = StripePaymentIntentV;

    open spec fn view(&self) -> StripePaymentIntentV {
        StripePaymentIntentV {
            id: self.id@,
            amount: self.amount as int,
            currency: self.currency@,
            receipt_email: opt_view(self.receipt_email),
        }
    }
}

pub struct StripeChargeV {
    pub id: Seq<char>,
    pub amount: int,
    pub currency: Seq<char>,
    pub payment_intent: Option<Seq<char>>,
    pub billing_email: Option<Seq<char>>,
    pub billing_name: Option<Seq<char>>,
}

/// A `charge` object, reduced to what the materializer reads.
pub struct StripeCharge {
    pub id: String,
    pub amount: i64,
    pub currency: String,
    pub payment_intent: Option<String>,
    pub billing_email: Option<String>,
    pub billing_name: Option<String>,
}

impl View for StripeCharge {
    type V = StripeChargeV;

    open spec fn view(&self) -> StripeChargeV {
        StripeChargeV {
            id: self.id@,
            amount: self.amount as int,
            currency: self.currency@,
            payment_intent: opt_view(self.payment_intent),
            billing_email: opt_view(self.billing_email),
            billing_name: opt_view(self.billing_name),
        }
    }
}

pub struct StripeCheckoutSessionV {
    pub id: Seq<char>,
    pub amount_total: Option<int>,
    pub currency: Option<Seq<char>>,
    pub customer_email: Option<Seq<char>>,
    pub payment_intent: Option<Seq<char>>,
}

/// A `checkout.session` object, reduced to what the materializer reads.
pub struct StripeCheckoutSession {
    pub id: String,
    pub amount_total: Option<i64>,
    pub currency: Option<String>,
    pub customer_email: Option<String>,
    pub payment_intent: Option<String>,
}

pub open spec fn opt_i64_view(o: Option<i64>) -> Option<int> {
    match o {
        Some(n) => Some(n as int),
        None => None,
    }
}

impl View for StripeCheckoutSession {
    type V = StripeCheckoutSessionV;

    open spec fn view(&self) -> StripeCheckoutSessionV {
        StripeCheckoutSessionV {
            id: self.id@,
            amount_total: opt_i64_view(self.amount_total),
            currency: opt_view(self.currency),
            customer_email: opt_view(self.customer_email),
            payment_intent: opt_view(self.payment_intent),
        }
    }
}

pub enum StripeObjectV {
    PaymentIntent(StripePaymentIntentV),
    Charge(StripeChargeV),
    CheckoutSession(StripeCheckoutSessionV),
    Other,
}

/// The object inside `data.object`, tagged by its own `object` field;
/// any unrecognized tag is `Other` and is never an error by itself.
pub enum StripeObject {
    PaymentIntent(StripePaymentIntent),
    Charge(StripeCharge),
    CheckoutSession(StripeCheckoutSession),
    Other,
}

impl View for StripeObject {
    type V = StripeObjectV;

    open spec fn view(&self) -> StripeObjectV {
        match self {
            StripeObject::PaymentIntent(p) => StripeObjectV::PaymentIntent(p@),
            StripeObject::Charge(c) => StripeObjectV::Charge(c@),
            StripeObject::CheckoutSession(s) => StripeObjectV::CheckoutSession(s@),
            StripeObject::Other => StripeObjectV::Other,
        }
    }
}

pub struct StripeEventV {
    pub event_id: Seq<char>,
    pub event_type: Seq<char>,
    pub object: StripeObjectV,
}

/// A verified Stripe event envelope.
pub struct StripeEvent {
    pub event_id: String,
    pub event_type: String,
    pub object: StripeObject,
}

impl View for StripeEvent {
    type V = StripeEventV;

    open spec fn view(&self) -> StripeEventV {
        StripeEventV { event_id: self.event_id@, event_type: self.event_type@, object: self.object@ }
    }
}

/// A reference to a payment intent: either its id, or the expanded
/// object carrying one.
pub open spec fn intent_ref_of(m: JsonM) -> Option<Seq<char>> {
    match m {
        JsonM::Str(s) => Some(s),
        JsonM::Obj(items) => match obj_get(items, "id"@) {
            Some(JsonM::Str(s)) => Some(s),
            _ => None,
        },
        _ => None,
    }
}

/// Best-effort payment-intent reference at `key`; absence or an
/// unusable shape is `None`, never a failure.
pub open spec fn opt_intent_field(m: JsonM, key: Seq<char>) -> Option<Seq<char>> {
    match m_field(m, key) {
        Some(x) => intent_ref_of(x),
        None => None,
    }
}

pub open spec fn pi_of(m: JsonM) -> Option<StripePaymentIntentV> {
    match (m_str_field(m, "id"@), m_int_field(m, "amount"@), m_str_field(m, "currency"@)) {
        (Some(id), Some(a), Some(c)) => Some(
            StripePaymentIntentV {
                id: id,
                amount: a,
                currency: c,
                receipt_email: m_str_field(m, "receipt_email"@),
            },
        ),
        _ => None,
    }
}

pub open spec fn charge_of(m: JsonM) -> Option<StripeChargeV> {
    match (m_str_field(m, "id"@), m_int_field(m, "amount"@), m_str_field(m, "currency"@)) {
        (Some(id), Some(a), Some(c)) => Some(
            StripeChargeV {
                id: id,
                amount: a,
                currency: c,
                payment_intent: opt_intent_field(m, "payment_intent"@),
                billing_email: match m_field(m, "billing_details"@) {
                    Some(bd) => m_str_field(bd, "email"@),
                    None => None,
                },
                billing_name: match m_field(m, "billing_details"@) {
                    Some(bd) => m_str_field(bd, "name"@),
                    None => None,
                },
            },
        ),
        _ => None,
    }
}

pub open spec fn session_of(m: JsonM) -> Option<StripeCheckoutSessionV> {
    match m_str_field(m, "id"@) {
        Some(id) => Some(
            StripeCheckoutSessionV {
                id: id,
                amount_total: m_int_field(m, "amount_total"@),
                currency: m_str_field(m, "currency"@),
                customer_email: m_str_field(m, "customer_email"@),
                payment_intent: opt_intent_field(m, "payment_intent"@),
            },
        ),
        None => None,
    }
}

pub open spec fn stripe_object_of(m: JsonM) -> Option<StripeObjectV> {
    match m_str_field(m, "object"@) {
        Some(tag) => {
            if tag == "payment_intent"@ {
                match pi_of(m) {
                    Some(p) => Some(StripeObjectV::PaymentIntent(p)),
                    None => None,
                }
            } else if tag == "charge"@ {
                match charge_of(m) {
                    Some(c) => Some(StripeObjectV::Charge(c)),
                    None => None,
                }
            } else if tag == "checkout.session"@ {
                match session_of(m) {
                    Some(s) => Some(StripeObjectV::CheckoutSession(s)),
                    None => None,
                }
            } else {
                Some(StripeObjectV::Other)
            }
        },
        None => Some(StripeObjectV::Other),
    }
}

/// The typed event a verified Stripe body denotes: the envelope needs
/// `id`, `type` and `data.object`.
pub open spec fn stripe_event_of(m: JsonM) -> Option<StripeEventV> {
    match (m_str_field(m, "id"@), m_str_field(m, "type"@), m_field(m, "data"@)) {
        (Some(id), Some(t), Some(d)) => match m_field(d, "object"@) {
            Some(o) => match stripe_object_of(o) {
                Some(ob) => Some(StripeEventV { event_id: id, event_type: t, object: ob }),
                None => None,
            },
            None => None,
        },
        _ => None,
    }
}

fn x_lenient_str(j: &Json, key: &str) -> (r: Option<String>)
    ensures
        opt_view(r) == m_str_field(json_view(*j), key@),
{
    match j.str_field(key) {
        Some(s) => Some(s.clone()),
        None => None,
    }
}

fn x_intent_ref(j: &Json) -> (r: Option<String>)
    ensures
        opt_view(r) == intent_ref_of(json_view(*j)),
{
    match j {
        Json::Str(s) => Some(s.clone()),
        Json::Obj(_) => match j.str_field("id") {
            Some(s) => Some(s.clone()),
            None => None,
        },
        _ => None,
    }
}

fn x_opt_intent(j: &Json, key: &str) -> (r: Option<String>)
    ensures
        opt_view(r) == opt_intent_field(json_view(*j), key@),
{
    match j.field(key) {
        Some(x) => x_intent_ref(x),
        None => None,
    }
}

fn parse_stripe_pi(j: &Json) -> (r: Option<StripePaymentIntent>)
    ensures
        (match (r, pi_of(json_view(*j))) {
            (Some(p), Some(m)) => p@ == m,
            (None, None) => true,
            _ => false,
        }),
{
    let id = match j.str_field("id") {
        Some(s) => s.clone(),
        None => {
            return None;
        },
    };
    let amount = match j.int_field("amount") {
        Some(a) => a,
        None => {
            return None;
        },
    };
    let currency = match j.str_field("currency") {
        Some(s) => s.clone(),
        None => {
            return None;
        },
    };
    let receipt_email = x_lenient_str(j, "receipt_email");
    Some(StripePaymentIntent { id, amount, currency, receipt_email })
}

fn parse_stripe_charge(j: &Json) -> (r: Option<StripeCharge>)
    ensures
        (match (r, charge_of(json_view(*j))) {
            (Some(c), Some(m)) => c@ == m,
            (None, None) => true,
            _ => false,
        }),
{
    let id = match j.str_field("id") {
        Some(s) => s.clone(),
        None => {
            return None;
        },
    };
    let amount = match j.int_field("amount") {
        Some(a) => a,
        None => {
            return None;
        },
    };
    let currency = match j.str_field("currency") {
        Some(s) => s.clone(),
        None => {
            return None;
        },
    };
    let payment_intent = x_opt_intent(j, "payment_intent");
    let (billing_email, billing_name) = match j.field("billing_details") {
        Some(bd) => (x_lenient_str(bd, "email"), x_lenient_str(bd, "name")),
        None => (None, None),
    };
    Some(StripeCharge { id, amount, currency, payment_intent, billing_email, billing_name })
}

fn parse_stripe_session(j: &Json) -> (r: Option<StripeCheckoutSession>)
    ensures
        (match (r, session_of(json_view(*j))) {
            (Some(s), Some(m)) => s@ == m,
            (None, None) => true,
            _ => false,
        }),
{
    let id = match j.str_field("id") {
        Some(s) => s.clone(),
        None => {
            return None;
        },
    };
    let amount_total = j.int_field("amount_total");
    let currency = x_lenient_str(j, "currency");
    let customer_email = x_lenient_str(j, "customer_email");
    let payment_intent = x_opt_intent(j, "payment_intent");
    Some(StripeCheckoutSession { id, amount_total, currency, customer_email, payment_intent })
}

fn parse_stripe_object(j: &Json) -> (r: Option<StripeObject>)
    ensures
        (match (r, stripe_object_of(json_view(*j))) {
            (Some(o), Some(m)) => o@ == m,
            (None, None) => true,
            _ => false,
        }),
{
    let tag = match j.str_field("object") {
        Some(t) => t,
        None => {
            return Some(StripeObject::Other);
        },
    };
    if str_eq(tag.as_str(), "payment_intent") {
        match parse_stripe_pi(j) {
            Some(p) => Some(StripeObject::PaymentIntent(p)),
            None => None,
        }
    } else if str_eq(tag.as_str(), "charge") {
        match parse_stripe_charge(j) {
            Some(c) => Some(StripeObject::Charge(c)),
            None => None,
        }
    } else if str_eq(tag.as_str(), "checkout.session") {
        match parse_stripe_session(j) {
            Some(s) => Some(StripeObject::CheckoutSession(s)),
            None => None,
        }
    } else {
        Some(StripeObject::Other)
    }
}

/// Parse a verified body's JSON tree into the typed Stripe event.
pub fn parse_stripe_event(j: &Json) -> (r: Option<StripeEvent>)
    ensures
        (match (r, stripe_event_of(json_view(*j))) {
            (Some(e), Some(m)) => e@ == m,
            (None, None) => true,
            _ => false,
        }),
{
    let event_id = match j.str_field("id") {
        Some(s) => s.clone(),
        None => {
            return None;
        },
    };
    let event_type = match j.str_field("type") {
        Some(s) => s.clone(),
        None => {
            return None;
        },
    };
    let object = match j.field("data") {
        Some(d) => match d.field("object") {
            Some(o) => match parse_stripe_object(o) {
                Some(ob) => ob,
                None => {
                    return None;
                },
            },
            None => {
                return None;
            },
        },
        None => {
            return None;
        },
    };
    Some(StripeEvent { event_id, event_type, object })
}

/// The verification contract on one delivery: prove authenticity of the
/// raw body before anything else, then parse it. Success is owed exactly
/// when the signature header is present, matches the raw body under the
/// secret, and the body is a well-formed event envelope.
pub open spec fn spec_verify_stripe(
    secret: Seq<char>,
    sig: Option<Seq<char>>,
    body: Seq<char>,
) -> Result<StripeEventV, VerificationError> {
    match sig {
        None => Err(VerificationError::MissingSignatureHeader),
        Some(h) => {
            if !stripe_sig_ok(secret, h, body) {
                Err(VerificationError::SignatureMismatch)
            } else {
                match sp_json(body) {
                    None => Err(VerificationError::MalformedPayload),
                    Some(m) => match stripe_event_of(m) {
                        None => Err(VerificationError::MalformedPayload),
                        Some(ev) => Ok(ev),
                    },
                }
            }
        },
    }
}

/// Authenticate one delivery against the `stripe-signature` header and
/// parse the verified body into the typed event.
pub fn verify_stripe_event(
    webhook_secret: &str,
    signature_header: Option<&str>,
    body: &str,
) -> (r: Result<StripeEvent, VerificationError>)
    ensures
        (match (r, spec_verify_stripe(webhook_secret@, opt_str_view(signature_header), body@)) {
            (Ok(e), Ok(m)) => e@ == m,
            (Err(a), Err(b)) => a == b,
            _ => false,
        }),
{
    let signature = match signature_header {
        Some(h) => h,
        None => {
            return Err(VerificationError::MissingSignatureHeader);
        },
    };
    if !stripe_verify(webhook_secret, signature, body) {
        return Err(VerificationError::SignatureMismatch);
    }
    let tree = match crate::jsonparse::parse_json(body) {
        Some(t) => t,
        None => {
            return Err(VerificationError::MalformedPayload);
        },
    };
    match parse_stripe_event(&tree) {
        Some(e) => Ok(e),
        None => Err(VerificationError::MalformedPayload),
    }
}

/// The order a succeeded payment intent materializes: the intent id is
/// both the payment identity and the intent key.
pub open spec fn stripe_pi_order(p: StripePaymentIntentV, wid: int) -> CreateOrderV {
    CreateOrderV {
        payment_provider: PaymentProvider::Stripe,
        payment_id: p.id,
        payment_intent_id: Some(p.id),
        customer_email: p.receipt_email,
        customer_name: None,
        total_amount: p.amount,
        currency: ascii_upper(p.currency),
        status: OrderStatus::Completed,
        webhook_event_id: Some(wid),
    }
}

/// The order a succeeded charge materializes.
pub open spec fn stripe_charge_order(c: StripeChargeV, wid: int) -> CreateOrderV {
    CreateOrderV {
        payment_provider: PaymentProvider::Stripe,
        payment_id: c.id,
        payment_intent_id: c.payment_intent,
        customer_email: c.billing_email,
        customer_name: c.billing_name,
        total_amount: c.amount,
        currency: ascii_upper(c.currency),
        status: OrderStatus::Completed,
        webhook_event_id: Some(wid),
    }
}

/// The order a completed checkout session materializes; a session
/// without a total records zero, and one without a currency records
/// `USD`.
pub open spec fn stripe_session_order(cs: StripeCheckoutSessionV, wid: int) -> CreateOrderV {
    CreateOrderV {
        payment_provider: PaymentProvider::Stripe,
        payment_id: cs.id,
        payment_intent_id: cs.payment_intent,
        customer_email: cs.customer_email,
        customer_name: None,
        total_amount: match cs.amount_total {
            Some(a) => a,
            None => 0,
        },
        currency: match cs.currency {
            Some(c) => ascii_upper(c),
            None => "USD"@,
        },
        status: OrderStatus::Completed,
        webhook_event_id: Some(wid),
    }
}

pub open spec fn spec_handle_payment_intent_succeeded(
    s: WebhookStoreV,
    ev: StripeEventV,
    wid: int,
    now: int,
) -> (WebhookStoreV, Result<Option<OrderConfirmationV>, Seq<char>>) {
    match ev.object {
        StripeObjectV::PaymentIntent(p) => {
            let o = stripe_pi_order(p, wid);
            if order_conflict(s, o) {
                (s, Ok(None))
            } else {
                (
                    with_order(s, o, now),
                    Ok(
                        match p.receipt_email {
                            Some(e) => Some(
                                OrderConfirmationV { email: e, order_ref: p.id, amount: p.amount },
                            ),
                            None => None,
                        },
                    ),
                )
            }
        },
        _ => (s, Err("Expected PaymentIntent object"@)),
    }
}

pub open spec fn spec_handle_charge_succeeded(
    s: WebhookStoreV,
    ev: StripeEventV,
    wid: int,
    now: int,
) -> (WebhookStoreV, Result<Option<OrderConfirmationV>, Seq<char>>) {
    match ev.object {
        StripeObjectV::Charge(c) => {
            let o = stripe_charge_order(c, wid);
            if order_conflict(s, o) {
                (s, Ok(None))
            } else {
                (with_order(s, o, now), Ok(None))
            }
        },
        _ => (s, Err("Expected Charge object"@)),
    }
}

pub open spec fn spec_handle_checkout_session_completed(
    s: WebhookStoreV,
    ev: StripeEventV,
    wid: int,
    now: int,
) -> (WebhookStoreV, Result<Option<OrderConfirmationV>, Seq<char>>) {
    match ev.object {
        StripeObjectV::CheckoutSession(cs) => {
            let o = stripe_session_order(cs, wid);
            if order_conflict(s, o) {
                (s, Ok(None))
            } else {
                (
                    with_order(s, o, now),
                    Ok(
                        match cs.customer_email {
                            Some(e) => Some(
                                OrderConfirmationV {
                                    email: e,
                                    order_ref: cs.id,
                                    amount: match cs.amount_total {
                                        Some(a) => a,
                                        None => 0,
                                    },
                                },
                            ),
                            None => None,
                        },
                    ),
                )
            }
        },
        _ => (s, Err("Expected CheckoutSession object"@)),
    }
}

/// The per-type switch: the three handled types may create an order, and
/// every other type is logged only and never an error.
pub open spec fn spec_dispatch_stripe(
    s: WebhookStoreV,
    ev: StripeEventV,
    wid: int,
    now: int,
) -> (WebhookStoreV, Result<Option<OrderConfirmationV>, Seq<char>>) {
    if ev.event_type == "payment_intent.succeeded"@ {
        spec_handle_payment_intent_succeeded(s, ev, wid, now)
    } else if ev.event_type == "charge.succeeded"@ {
        spec_handle_charge_succeeded(s, ev, wid, now)
    } else if ev.event_type == "checkout.session.completed"@ {
        spec_handle_checkout_session_completed(s, ev, wid, now)
    } else {
        (s, Ok(None))
    }
}

pub struct StripeStepV {
    pub store: WebhookStoreV,
    pub resp: WebhookResponseV,
    pub notice: Option<OrderConfirmationV>,
}

pub open spec fn stripe_reject(s: WebhookStoreV, status: int, message: Seq<char>) -> StripeStepV {
    StripeStepV {
        store: s,
        resp: WebhookResponseV::Rejected { status: status, message: message },
        notice: None,
    }
}

/// The whole Stripe pipeline on one delivery: authenticate the raw body,
/// parse it, deduplicate by `event_id`, log, dispatch, and mark the
/// logged row processed; application-level failures still answer 200.
pub open spec fn spec_handle_stripe(
    s: WebhookStoreV,
    secret: Seq<char>,
    sig: Option<Seq<char>>,
    body: Seq<char>,
    now: int,
) -> StripeStepV {
    match spec_verify_stripe(secret, sig, body) {
        Err(VerificationError::MissingSignatureHeader) => stripe_reject(
            s,
            400,
            "Missing stripe-signature header"@,
        ),
        Err(VerificationError::SignatureMismatch) => stripe_reject(
            s,
            400,
            "Webhook signature verification failed"@,
        ),
        Err(VerificationError::MalformedPayload) => stripe_reject(s, 400, "Invalid payload"@),
        Ok(ev) => {
            if has_event(s, ev.event_id) {
                StripeStepV {
                    store: s,
                    resp: WebhookResponseV::Accepted { duplicate: true, error: None },
                    notice: None,
                }
            } else {
                let wid = s.events.len() as int;
                let s1 = with_logged(
                    s,
                    CreateWebhookEventV {
                        provider: PaymentProvider::Stripe,
                        event_type: ev.event_type,
                        event_id: ev.event_id,
                        payload: body,
                    },
                    now,
                );
                let step = spec_dispatch_stripe(s1, ev, wid, now);
                match step.1 {
                    Ok(notice) => StripeStepV {
                        store: with_marked(step.0, wid, None, now),
                        resp: WebhookResponseV::Accepted { duplicate: false, error: None },
                        notice: notice,
                    },
                    Err(msg) => StripeStepV {
                        store: with_marked(step.0, wid, Some(msg), now),
                        resp: WebhookResponseV::Accepted { duplicate: false, error: Some(msg) },
                        notice: None,
                    },
                }
            }
        },
    }
}

/// Process a `payment_intent.succeeded` event: at most one order per
/// intent; a duplicate is success without a new row.
pub fn handle_payment_intent_succeeded(
    store: &mut WebhookStore,
    event: &StripeEvent,
    webhook_id: usize,
    now: i64,
) -> (r: Result<Option<OrderConfirmation>, String>)
    requires
        store_wf(old(store)@),
    ensures
        store_wf(final(store)@),
        ({
            let step = spec_handle_payment_intent_succeeded(
                old(store)@,
                event@,
                webhook_id as int,
                now as int,
            );
            final(store)@ == step.0 && (match (r, step.1) {
                (Ok(n), Ok(nm)) => opt_conf_view(n) == nm,
                (Err(e), Err(em)) => e@ == em,
                _ => false,
            })
        }),
{
    let pi = match &event.object {
        StripeObject::PaymentIntent(p) => p,
        _ => {
            return Err(String::from_str("Expected PaymentIntent object"));
        },
    };
    let order = CreateOrder {
        payment_provider: PaymentProvider::Stripe,
        payment_id: pi.id.clone(),
        payment_intent_id: Some(pi.id.clone()),
        customer_email: match &pi.receipt_email {
            Some(e) => Some(e.clone()),
            None => None,
        },
        customer_name: None,
        total_amount: pi.amount,
        currency: ascii_upper_string(pi.currency.as_str()),
        status: OrderStatus::Completed,
        webhook_event_id: Some(webhook_id),
    };
    proof {
        assert(order@ == stripe_pi_order(event@.object->PaymentIntent_0, webhook_id as int));
    }
    match store.create_order(order, now) {
        Ok(_) => {
            match &pi.receipt_email {
                Some(email) => Ok(
                    Some(
                        OrderConfirmation {
                            email: email.clone(),
                            order_ref: pi.id.clone(),
                            amount: pi.amount,
                        },
                    ),
                ),
                None => Ok(None),
            }
        },
        Err(OrderConflict) => Ok(None),
    }
}

/// Process a `charge.succeeded` event: at most one order per charge and
/// per referenced intent; a duplicate is success without a new row.
pub fn handle_charge_succeeded(
    store: &mut WebhookStore,
    event: &StripeEvent,
    webhook_id: usize,
    now: i64,
) -> (r: Result<Option<OrderConfirmation>, String>)
    requires
        store_wf(old(store)@),
    ensures
        store_wf(final(store)@),
        ({
            let step = spec_handle_charge_succeeded(old(store)@, event@, webhook_id as int, now as int);
            final(store)@ == step.0 && (match (r, step.1) {
                (Ok(n), Ok(nm)) => opt_conf_view(n) == nm,
                (Err(e), Err(em)) => e@ == em,
                _ => false,
            })
        }),
{
    let charge = match &event.object {
        StripeObject::Charge(c) => c,
        _ => {
            return Err(String::from_str("Expected Charge object"));
        },
    };
    let order = CreateOrder {
        payment_provider: PaymentProvider::Stripe,
        payment_id: charge.id.clone(),
        payment_intent_id: match &charge.payment_intent {
            Some(pi) => Some(pi.clone()),
            None => None,
        },
        customer_email: match &charge.billing_email {
            Some(e) => Some(e.clone()),
            None => None,
        },
        customer_name: match &charge.billing_name {
            Some(n) => Some(n.clone()),
            None => None,
        },
        total_amount: charge.amount,
        currency: ascii_upper_string(charge.currency.as_str()),
        status: OrderStatus::Completed,
        webhook_event_id: Some(webhook_id),
    };
    proof {
        assert(order@ == stripe_charge_order(event@.object->Charge_0, webhook_id as int));
    }
    match store.create_order(order, now) {
        Ok(_) => Ok(None),
        Err(OrderConflict) => Ok(None),
    }
}

/// Process a `checkout.session.completed` event: at most one order per
/// session and per referenced intent; a duplicate is success without a
/// new row.
pub fn handle_checkout_session_completed(
    store: &mut WebhookStore,
    event: &StripeEvent,
    webhook_id: usize,
    now: i64,
) -> (r: Result<Option<OrderConfirmation>, String>)
    requires
        store_wf(old(store)@),
    ensures
        store_wf(final(store)@),
        ({
            let step = spec_handle_checkout_session_completed(
                old(store)@,
                event@,
                webhook_id as int,
                now as int,
            );
            final(store)@ == step.0 && (match (r, step.1) {
                (Ok(n), Ok(nm)) => opt_conf_view(n) == nm,
                (Err(e), Err(em)) => e@ == em,
                _ => false,
            })
        }),
{
    let session = match &event.object {
        StripeObject::CheckoutSession(s) => s,
        _ => {
            return Err(String::from_str("Expected CheckoutSession object"));
        },
    };
    let amount: i64 = match &session.amount_total {
        Some(a) => *a,
        None => 0,
    };
    let order = CreateOrder {
        payment_provider: PaymentProvider::Stripe,
        payment_id: session.id.clone(),
        payment_intent_id: match &session.payment_intent {
            Some(pi) => Some(pi.clone()),
            None => None,
        },
        customer_email: match &session.customer_email {
            Some(e) => Some(e.clone()),
            None => None,
        },
        customer_name: None,
        total_amount: amount,
        currency: match &session.currency {
            Some(c) => ascii_upper_string(c.as_str()),
            None => String::from_str("USD"),
        },
        status: OrderStatus::Completed,
        webhook_event_id: Some(webhook_id),
    };
    proof {
        assert(order@ == stripe_session_order(event@.object->CheckoutSession_0, webhook_id as int));
    }
    match store.create_order(order, now) {
        Ok(_) => {
            match &session.customer_email {
                Some(email) => Ok(
                    Some(
                        OrderConfirmation {
                            email: email.clone(),
                            order_ref: session.id.clone(),
                            amount: amount,
                        },
                    ),
                ),
                None => Ok(None),
            }
        },
        Err(OrderConflict) => Ok(None),
    }
}

/// The Stripe webhook endpoint on one delivery.
pub fn handle_stripe_webhook(
    store: &mut WebhookStore,
    webhook_secret: &str,
    signature_header: Option<&str>,
    body: &str,
    now: i64,
) -> (r: HandlerOutcome)
    requires
        store_wf(old(store)@),
    ensures
        store_wf(final(store)@),
        ({
            let step = spec_handle_stripe(
                old(store)@,
                webhook_secret@,
                opt_str_view(signature_header),
                body@,
                now as int,
            );
            final(store)@ == step.store && r.response@ == step.resp && opt_conf_view(
                r.notification,
            ) == step.notice
        }),
{
    let event = match verify_stripe_event(webhook_secret, signature_header, body) {
        Ok(e) => e,
        Err(VerificationError::MissingSignatureHeader) => {
            return HandlerOutcome {
                response: WebhookResponse::Rejected {
                    status: 400,
                    message: String::from_str("Missing stripe-signature header"),
                },
                notification: None,
            };
        },
        Err(VerificationError::SignatureMismatch) => {
            return HandlerOutcome {
                response: WebhookResponse::Rejected {
                    status: 400,
                    message: String::from_str("Webhook signature verification failed"),
                },
                notification: None,
            };
        },
        Err(VerificationError::MalformedPayload) => {
            return HandlerOutcome {
                response: WebhookResponse::Rejected {
                    status: 400,
                    message: String::from_str("Invalid payload"),
                },
                notification: None,
            };
        },
    };
    if store.is_event_processed(event.event_id.as_str()) {
        return HandlerOutcome {
            response: WebhookResponse::Accepted { duplicate: true, error: None },
            notification: None,
        };
    }
    let row = CreateWebhookEvent {
        provider: PaymentProvider::Stripe,
        event_type: event.event_type.clone(),
        event_id: event.event_id.clone(),
        payload: body.to_owned(),
    };
    let webhook_id = match store.log_webhook_event(row, now) {
        Some(id) => id,
        None => {
            // The uniqueness constraint caught a concurrent duplicate:
            // answer as for one. Unreachable here, since the store is
            // ours alone between the check and the insert.
            return HandlerOutcome {
                response: WebhookResponse::Accepted { duplicate: true, error: None },
                notification: None,
            };
        },
    };
    let result = if str_eq(event.event_type.as_str(), "payment_intent.succeeded") {
        handle_payment_intent_succeeded(store, &event, webhook_id, now)
    } else if str_eq(event.event_type.as_str(), "charge.succeeded") {
        handle_charge_succeeded(store, &event, webhook_id, now)
    } else if str_eq(event.event_type.as_str(), "checkout.session.completed") {
        handle_checkout_session_completed(store, &event, webhook_id, now)
    } else {
        Ok(None)
    };
    match result {
        Ok(notice) => {
            store.mark_webhook_processed(webhook_id, true, None, now);
            HandlerOutcome {
                response: WebhookResponse::Accepted { duplicate: false, error: None },
                notification: notice,
            }
        },
        Err(msg) => {
            store.mark_webhook_processed(webhook_id, false, Some(msg.clone()), now);
            HandlerOutcome {
                response: WebhookResponse::Accepted { duplicate: false, error: Some(msg) },
                notification: None,
            }
        },
    }
}

} // verus!
