//! Square webhook processing.
//!
//! A delivery is authenticated by HMAC-SHA256 over the notification URL
//! concatenated with the raw body, base64-encoded and compared with the
//! `x-square-hmacsha256-signature` header. The verified body is parsed
//! into `SquareWebhookEvent`; only a `payment.updated` event whose
//! embedded payment has reached the terminal `COMPLETED` status
//! materializes an order, and at most one order exists per Square
//! payment id.

use vstd::prelude::*;

use crate::crypto::{base64_of, base64_encode, eq_str_ct, hmac_sha256, hmac_sha256_of};
use crate::jsonparse::sp_json;
use crate::jsonval::{Json, JsonM, json_view, m_field, m_int_field, m_str_field};
use crate::strutil::{ascii_upper, ascii_upper_string, str_eq};
use crate::webhooks::{
    CreateOrder, CreateOrderV, CreateWebhookEvent, CreateWebhookEventV, HandlerOutcome,
    OrderConfirmation, OrderConfirmationV, OrderConflict, OrderStatus, PaymentProvider,
    WebhookResponse, WebhookResponseV, WebhookStore, WebhookStoreV, has_event, opt_conf_view,
    opt_str_view, opt_view, order_conflict, store_wf, with_logged, with_marked, with_order,
    VerificationError,
};

verus! {

use vstd::utf8::encode_utf8;

pub struct SquareCardV {
    pub card_brand: Seq<char>,
    pub last_4: Seq<char>,
}

pub struct SquareCard {
    pub card_brand: String,
    pub last_4: String,
}

impl View for SquareCard {
    type V = SquareCardV;

    open spec fn view(&self) -> SquareCardV {
        SquareCardV { card_brand: self.card_brand@, last_4: self.last_4@ }
    }
}

pub struct SquareCardDetailsV {
    pub status: Seq<char>,
    pub card: Option<SquareCardV>,
}

pub struct SquareCardDetails {
    pub status: String,
    pub card: Option<SquareCard>,
}

impl View for SquareCardDetails {
    type V = SquareCardDetailsV;

    open spec fn view(&self) -> SquareCardDetailsV {
        SquareCardDetailsV {
            status: self.status@,
            card: match self.card {
                Some(c) => Some(c@),
                None => None,
            },
        }
    }
}

pub struct SquareAmountMoneyV {
    pub amount: int,
    pub currency: Seq<char>,
}

pub struct SquareAmountMoney {
    pub amount: i64,
    pub currency: String,
}

impl View for SquareAmountMoney {
    type V = SquareAmountMoneyV;

    open spec fn view(&self) -> SquareAmountMoneyV {
        SquareAmountMoneyV { amount: self.amount as int, currency: self.currency@ }
    }
}

pub struct SquarePaymentV {
    pub id: Seq<char>,
    pub status: Seq<char>,
    pub amount_money: SquareAmountMoneyV,
    pub source_type: Option<Seq<char>>,
    pub card_details: Option<SquareCardDetailsV>,
    pub receipt_number: Option<Seq<char>>,
    pub receipt_url: Option<Seq<char>>,
    pub buyer_email_address: Option<Seq<char>>,
}

pub struct SquarePayment {
    pub id: String,
    pub status: String,
    pub amount_money: SquareAmountMoney,
    pub source_type: Option<String>,
    pub card_details: Option<SquareCardDetails>,
    pub receipt_number: Option<String>,
    pub receipt_url: Option<String>,
    pub buyer_email_address: Option<String>,
}

impl View for SquarePayment {
    type V = SquarePaymentV;

    open spec fn view(&self) -> SquarePaymentV {
        SquarePaymentV {
            id: self.id@,
            status: self.status@,
            amount_money: self.amount_money@,
            source_type: opt_view(self.source_type),
            card_details: match self.card_details {
                Some(c) => Some(c@),
                None => None,
            },
            receipt_number: opt_view(self.receipt_number),
            receipt_url: opt_view(self.receipt_url),
            buyer_email_address: opt_view(self.buyer_email_address),
        }
    }
}

pub struct SquarePaymentObjectV {
    pub payment: Option<SquarePaymentV>,
}

pub struct SquarePaymentObject {
    pub payment: Option<SquarePayment>,
}

impl View for SquarePaymentObject {
    type V = SquarePaymentObjectV;

    open spec fn view(&self) -> SquarePaymentObjectV {
        SquarePaymentObjectV {
            payment: match self.payment {
                Some(p) => Some(p@),
                None => None,
            },
        }
    }
}

pub struct SquareEventDataV {
    pub data_type: Seq<char>,
    pub id: Seq<char>,
    pub object: Option<SquarePaymentObjectV>,
}

pub struct SquareEventData {
    pub data_type: String,
    pub id: String,
    pub object: Option<SquarePaymentObject>,
}

impl View for SquareEventData {
    type V = SquareEventDataV;

    open spec fn view(&self) -> SquareEventDataV {
        SquareEventDataV {
            data_type: self.data_type@,
            id: self.id@,
            object: match self.object {
                Some(o) => Some(o@),
                None => None,
            },
        }
    }
}

pub struct SquareWebhookEventV {
    pub merchant_id: Seq<char>,
    pub event_type: Seq<char>,
    pub event_id: Seq<char>,
    pub created_at: Seq<char>,
    pub data: SquareEventDataV,
}

pub struct SquareWebhookEvent {
    pub merchant_id: String,
    pub event_type: String,
    pub event_id: String,
    pub created_at: String,
    pub data: SquareEventData,
}

impl View for SquareWebhookEvent {
    type V = SquareWebhookEventV;

    open spec fn view(&self) -> SquareWebhookEventV {
        SquareWebhookEventV {
            merchant_id: self.merchant_id@,
            event_type: self.event_type@,
            event_id: self.event_id@,
            created_at: self.created_at@,
            data: self.data@,
        }
    }
}

/// An optional text field: absent or null is `None`, a string is its
/// content, anything else refuses the payload.
pub open spec fn opt_str_field(m: JsonM, key: Seq<char>) -> Option<Option<Seq<char>>> {
    match m_field(m, key) {
        None => Some(None),
        Some(JsonM::Null) => Some(None),
        Some(JsonM::Str(s)) => Some(Some(s)),
        Some(_) => None,
    }
}

pub open spec fn sq_card_of(m: JsonM) -> Option<SquareCardV> {
    match (m_str_field(m, "card_brand"@), m_str_field(m, "last_4"@)) {
        (Some(b), Some(l)) => Some(SquareCardV { card_brand: b, last_4: l }),
        _ => None,
    }
}

pub open spec fn sq_card_details_of(m: JsonM) -> Option<SquareCardDetailsV> {
    match m_str_field(m, "status"@) {
        Some(st) => match m_field(m, "card"@) {
            None => Some(SquareCardDetailsV { status: st, card: None }),
            Some(JsonM::Null) => Some(SquareCardDetailsV { status: st, card: None }),
            Some(c) => match sq_card_of(c) {
                Some(cc) => Some(SquareCardDetailsV { status: st, card: Some(cc) }),
                None => None,
            },
        },
        None => None,
    }
}

pub open spec fn sq_amount_of(m: JsonM) -> Option<SquareAmountMoneyV> {
    match (m_int_field(m, "amount"@), m_str_field(m, "currency"@)) {
        (Some(a), Some(c)) => Some(SquareAmountMoneyV { amount: a, currency: c }),
        _ => None,
    }
}

pub open spec fn sq_payment_of(m: JsonM) -> Option<SquarePaymentV> {
    let cd = match m_field(m, "card_details"@) {
        None => Some(None),
        Some(JsonM::Null) => Some(None),
        Some(c) => match sq_card_details_of(c) {
            Some(x) => Some(Some(x)),
            None => None,
        },
    };
    match (m_str_field(m, "id"@), m_str_field(m, "status"@), m_field(m, "amount_money"@)) {
        (Some(id), Some(st), Some(amj)) => match sq_amount_of(amj) {
            Some(am) => match (
                opt_str_field(m, "source_type"@),
                opt_str_field(m, "receipt_number"@),
                opt_str_field(m, "receipt_url"@),
                opt_str_field(m, "buyer_email_address"@),
                cd,
            ) {
                (Some(src), Some(rn), Some(ru), Some(be), Some(cdv)) => Some(
                    SquarePaymentV {
                        id: id,
                        status: st,
                        amount_money: am,
                        source_type: src,
                        card_details: cdv,
                        receipt_number: rn,
                        receipt_url: ru,
                        buyer_email_address: be,
                    },
                ),
                _ => None,
            },
            None => None,
        },
        _ => None,
    }
}

pub open spec fn sq_object_of(m: JsonM) -> Option<SquarePaymentObjectV> {
    match m_field(m, "payment"@) {
        None => Some(SquarePaymentObjectV { payment: None }),
        Some(JsonM::Null) => Some(SquarePaymentObjectV { payment: None }),
        Some(p) => match sq_payment_of(p) {
            Some(pv) => Some(SquarePaymentObjectV { payment: Some(pv) }),
            None => None,
        },
    }
}

pub open spec fn sq_data_of(m: JsonM) -> Option<SquareEventDataV> {
    match (m_str_field(m, "type"@), m_str_field(m, "id"@)) {
        (Some(t), Some(id)) => match m_field(m, "object"@) {
            None => Some(SquareEventDataV { data_type: t, id: id, object: None }),
            Some(JsonM::Null) => Some(SquareEventDataV { data_type: t, id: id, object: None }),
            Some(o) => match sq_object_of(o) {
                Some(ov) => Some(SquareEventDataV { data_type: t, id: id, object: Some(ov) }),
                None => None,
            },
        },
        _ => None,
    }
}

/// The typed event a verified Square body denotes, when it has the
/// required envelope fields.
pub open spec fn sq_event_of(m: JsonM) -> Option<SquareWebhookEventV> {
    match (
        m_str_field(m, "merchant_id"@),
        m_str_field(m, "type"@),
        m_str_field(m, "event_id"@),
        m_str_field(m, "created_at"@),
        m_field(m, "data"@),
    ) {
        (Some(mid), Some(t), Some(eid), Some(ca), Some(dj)) => match sq_data_of(dj) {
            Some(d) => Some(
                SquareWebhookEventV {
                    merchant_id: mid,
                    event_type: t,
                    event_id: eid,
                    created_at: ca,
                    data: d,
                },
            ),
            None => None,
        },
        _ => None,
    }
}

fn x_opt_str(j: &Json, key: &str) -> (r: Option<Option<String>>)
    ensures
        (match (r, opt_str_field(json_view(*j), key@)) {
            (Some(a), Some(b)) => opt_view(a) == b,
            (None, None) => true,
            _ => false,
        }),
{
    match j.field(key) {
        None => Some(None),
        Some(v) => match v {
            Json::Null => Some(None),
            Json::Str(s) => Some(Some(s.clone())),
            _ => None,
        },
    }
}

fn parse_square_card(j: &Json) -> (r: Option<SquareCard>)
    ensures
        (match (r, sq_card_of(json_view(*j))) {
            (Some(c), Some(m)) => c@ == m,
            (None, None) => true,
            _ => false,
        }),
{
    let b = match j.str_field("card_brand") {
        Some(b) => b.clone(),
        None => {
            return None;
        },
    };
    let l = match j.str_field("last_4") {
        Some(l) => l.clone(),
        None => {
            return None;
        },
    };
    Some(SquareCard { card_brand: b, last_4: l })
}

fn parse_square_card_details(j: &Json) -> (r: Option<SquareCardDetails>)
    ensures
        (match (r, sq_card_details_of(json_view(*j))) {
            (Some(c), Some(m)) => c@ == m,
            (None, None) => true,
            _ => false,
        }),
{
    let st = match j.str_field("status") {
        Some(s) => s.clone(),
        None => {
            return None;
        },
    };
    match j.field("card") {
        None => Some(SquareCardDetails { status: st, card: None }),
        Some(c) => match c {
            Json::Null => Some(SquareCardDetails { status: st, card: None }),
            _ => match parse_square_card(c) {
                Some(cc) => Some(SquareCardDetails { status: st, card: Some(cc) }),
                None => None,
            },
        },
    }
}

fn parse_square_amount(j: &Json) -> (r: Option<SquareAmountMoney>)
    ensures
        (match (r, sq_amount_of(json_view(*j))) {
            (Some(a), Some(m)) => a@ == m,
            (None, None) => true,
            _ => false,
        }),
{
    let a = match j.int_field("amount") {
        Some(a) => a,
        None => {
            return None;
        },
    };
    let c = match j.str_field("currency") {
        Some(c) => c.clone(),
        None => {
            return None;
        },
    };
    Some(SquareAmountMoney { amount: a, currency: c })
}

fn parse_square_payment(j: &Json) -> (r: Option<SquarePayment>)
    ensures
        (match (r, sq_payment_of(json_view(*j))) {
            (Some(p), Some(m)) => p@ == m,
            (None, None) => true,
            _ => false,
        }),
{
    let cd: Option<SquareCardDetails> = match j.field("card_details") {
        None => None,
        Some(c) => match c {
            Json::Null => None,
            _ => match parse_square_card_details(c) {
                Some(x) => Some(x),
                None => {
                    return None;
                },
            },
        },
    };
    let id = match j.str_field("id") {
        Some(s) => s.clone(),
        None => {
            return None;
        },
    };
    let st = match j.str_field("status") {
        Some(s) => s.clone(),
        None => {
            return None;
        },
    };
    let am = match j.field("amount_money") {
        Some(amj) => match parse_square_amount(amj) {
            Some(am) => am,
            None => {
                return None;
            },
        },
        None => {
            return None;
        },
    };
    let src = match x_opt_str(j, "source_type") {
        Some(x) => x,
        None => {
            return None;
        },
    };
    let rn = match x_opt_str(j, "receipt_number") {
        Some(x) => x,
        None => {
            return None;
        },
    };
    let ru = match x_opt_str(j, "receipt_url") {
        Some(x) => x,
        None => {
            return None;
        },
    };
    let be = match x_opt_str(j, "buyer_email_address") {
        Some(x) => x,
        None => {
            return None;
        },
    };
    Some(
        SquarePayment {
            id: id,
            status: st,
            amount_money: am,
            source_type: src,
            card_details: cd,
            receipt_number: rn,
            receipt_url: ru,
            buyer_email_address: be,
        },
    )
}

fn parse_square_object(j: &Json) -> (r: Option<SquarePaymentObject>)
    ensures
        (match (r, sq_object_of(json_view(*j))) {
            (Some(o), Some(m)) => o@ == m,
            (None, None) => true,
            _ => false,
        }),
{
    match j.field("payment") {
        None => Some(SquarePaymentObject { payment: None }),
        Some(p) => match p {
            Json::Null => Some(SquarePaymentObject { payment: None }),
            _ => match parse_square_payment(p) {
                Some(pv) => Some(SquarePaymentObject { payment: Some(pv) }),
                None => None,
            },
        },
    }
}

fn parse_square_data(j: &Json) -> (r: Option<SquareEventData>)
    ensures
        (match (r, sq_data_of(json_view(*j))) {
            (Some(d), Some(m)) => d@ == m,
            (None, None) => true,
            _ => false,
        }),
{
    let t = match j.str_field("type") {
        Some(s) => s.clone(),
        None => {
            return None;
        },
    };
    let id = match j.str_field("id") {
        Some(s) => s.clone(),
        None => {
            return None;
        },
    };
    match j.field("object") {
        None => Some(SquareEventData { data_type: t, id: id, object: None }),
        Some(o) => match o {
            Json::Null => Some(SquareEventData { data_type: t, id: id, object: None }),
            _ => match parse_square_object(o) {
                Some(ov) => Some(SquareEventData { data_type: t, id: id, object: Some(ov) }),
                None => None,
            },
        },
    }
}

/// Parse a verified body's JSON tree into the typed Square event.
pub fn parse_square_event(j: &Json) -> (r: Option<SquareWebhookEvent>)
    ensures
        (match (r, sq_event_of(json_view(*j))) {
            (Some(e), Some(m)) => e@ == m,
            (None, None) => true,
            _ => false,
        }),
{
    let mid = match j.str_field("merchant_id") {
        Some(s) => s.clone(),
        None => {
            return None;
        },
    };
    let t = match j.str_field("type") {
        Some(s) => s.clone(),
        None => {
            return None;
        },
    };
    let eid = match j.str_field("event_id") {
        Some(s) => s.clone(),
        None => {
            return None;
        },
    };
    let ca = match j.str_field("created_at") {
        Some(s) => s.clone(),
        None => {
            return None;
        },
    };
    let d = match j.field("data") {
        Some(dj) => match parse_square_data(dj) {
            Some(d) => d,
            None => {
                return None;
            },
        },
        None => {
            return None;
        },
    };
    Some(
        SquareWebhookEvent {
            merchant_id: mid,
            event_type: t,
            event_id: eid,
            created_at: ca,
            data: d,
        },
    )
}

/// Square's scheme: the header must equal the base64 HMAC-SHA256 tag of
/// the notification URL concatenated with the raw body, under the
/// configured signature key.
pub open spec fn square_sig_ok(
    key: Seq<char>,
    url: Seq<char>,
    header: Seq<char>,
    body: Seq<char>,
) -> bool {
    base64_of(hmac_sha256_of(encode_utf8(key), encode_utf8(url) + encode_utf8(body))) == header
}

/// Decide Square's signature check; the comparison examines the whole
/// computed text rather than stopping at the first difference.
pub fn verify_square_signature(
    body: &str,
    signature: &str,
    signature_key: &str,
    webhook_url: &str,
) -> (r: bool)
    ensures
        r == square_sig_ok(signature_key@, webhook_url@, signature@, body@),
{
    let mut msg = webhook_url.as_bytes_vec();
    let mut body_bytes = body.as_bytes_vec();
    msg.append(&mut body_bytes);
    let key = signature_key.as_bytes_vec();
    let tag = hmac_sha256(key.as_slice(), msg.as_slice());
    let computed = base64_encode(tag.as_slice());
    eq_str_ct(computed.as_str(), signature)
}

/// The verification contract on one delivery: prove authenticity of the
/// raw body against the `x-square-hmacsha256-signature` header before
/// anything else, then parse it. Success is owed exactly when the header
/// is present, carries the base64 tag of the notification URL and raw
/// body under the key, and the body is a well-formed event envelope.
pub open spec fn spec_verify_square(
    signature_key: Seq<char>,
    webhook_url: Seq<char>,
    sig: Option<Seq<char>>,
    body: Seq<char>,
) -> Result<SquareWebhookEventV, VerificationError> {
    match sig {
        None => Err(VerificationError::MissingSignatureHeader),
        Some(h) => {
            if !square_sig_ok(signature_key, webhook_url, h, body) {
                Err(VerificationError::SignatureMismatch)
            } else {
                match sp_json(body) {
                    None => Err(VerificationError::MalformedPayload),
                    Some(m) => match sq_event_of(m) {
                        None => Err(VerificationError::MalformedPayload),
                        Some(ev) => Ok(ev),
                    },
                }
            }
        },
    }
}

/// Authenticate one delivery and parse the verified body into the typed
/// event.
pub fn verify_square_event(
    signature_key: &str,
    webhook_url: &str,
    signature_header: Option<&str>,
    body: &str,
) -> (r: Result<SquareWebhookEvent, VerificationError>)
    ensures
        (match (
            r,
            spec_verify_square(
                signature_key@,
                webhook_url@,
                opt_str_view(signature_header),
                body@,
            ),
        ) {
            (Ok(e), Ok(m)) => e@ == m,
            (Err(a), Err(b)) => a == b,
            _ => false,
        }),
{
    let signature = match signature_header {
        Some(h) => h,
        None => {
            return Err(VerificationError::MissingSignatureHeader);
        },
    };
    if !verify_square_signature(body, signature, signature_key, webhook_url) {
        return Err(VerificationError::SignatureMismatch);
    }
    let tree = match crate::jsonparse::parse_json(body) {
        Some(t) => t,
        None => {
            return Err(VerificationError::MalformedPayload);
        },
    };
    match parse_square_event(&tree) {
        Some(e) => Ok(e),
        None => Err(VerificationError::MalformedPayload),
    }
}

pub struct SquareStepV {
    pub store: WebhookStoreV,
    pub resp: WebhookResponseV,
    pub notice: Option<OrderConfirmationV>,
}

/// The order a completed Square payment materializes: the payment id is
/// the real-world identity, the currency is normalized to uppercase, and
/// the amount is the provider's smallest-unit integer, untouched.
pub open spec fn square_order_request(p: SquarePaymentV, wid: int) -> CreateOrderV {
    CreateOrderV {
        payment_provider: PaymentProvider::Square,
        payment_id: p.id,
        payment_intent_id: None,
        customer_email: p.buyer_email_address,
        customer_name: None,
        total_amount: p.amount_money.amount,
        currency: ascii_upper(p.amount_money.currency),
        status: OrderStatus::Completed,
        webhook_event_id: Some(wid),
    }
}

/// `payment.updated`: an order is created only for the terminal
/// `COMPLETED` status, at most once per payment; a missing payment
/// object is an application error, and a duplicate payment is success.
pub open spec fn spec_handle_payment_updated(
    s: WebhookStoreV,
    ev: SquareWebhookEventV,
    wid: int,
    now: int,
) -> (WebhookStoreV, Result<Option<OrderConfirmationV>, Seq<char>>) {
    match ev.data.object {
        Some(obj) => match obj.payment {
            Some(p) => {
                if p.status != "COMPLETED"@ {
                    (s, Ok(None))
                } else {
                    let o = square_order_request(p, wid);
                    if order_conflict(s, o) {
                        (s, Ok(None))
                    } else {
                        (
                            with_order(s, o, now),
                            Ok(
                                match p.buyer_email_address {
                                    Some(e) => Some(
                                        OrderConfirmationV {
                                            email: e,
                                            order_ref: p.id,
                                            amount: p.amount_money.amount,
                                        },
                                    ),
                                    None => None,
                                },
                            ),
                        )
                    }
                }
            },
            None => (s, Err("Missing payment object in event data"@)),
        },
        None => (s, Err("Missing payment object in event data"@)),
    }
}

/// The per-type switch: `payment.updated` may create an order;
/// `payment.created` and every other type is logged only and never an
/// error.
pub open spec fn spec_dispatch_square(
    s: WebhookStoreV,
    ev: SquareWebhookEventV,
    wid: int,
    now: int,
) -> (WebhookStoreV, Result<Option<OrderConfirmationV>, Seq<char>>) {
    if ev.event_type == "payment.updated"@ {
        spec_handle_payment_updated(s, ev, wid, now)
    } else {
        (s, Ok(None))
    }
}

pub open spec fn square_reject(s: WebhookStoreV, status: int, message: Seq<char>) -> SquareStepV {
    SquareStepV {
        store: s,
        resp: WebhookResponseV::Rejected { status: status, message: message },
        notice: None,
    }
}

/// The whole Square pipeline on one delivery: authenticate the raw body,
/// parse it, deduplicate by `event_id`, log, dispatch, and mark the
/// logged row processed; every application-level failure still answers
/// 200 with the diagnostic in the body.
pub open spec fn spec_handle_square(
    s: WebhookStoreV,
    signature_key: Seq<char>,
    webhook_url: Seq<char>,
    sig: Option<Seq<char>>,
    body: Seq<char>,
    now: int,
) -> SquareStepV {
    match spec_verify_square(signature_key, webhook_url, sig, body) {
        Err(VerificationError::MissingSignatureHeader) => square_reject(
            s,
            400,
            "Missing x-square-hmacsha256-signature header"@,
        ),
        Err(VerificationError::SignatureMismatch) => square_reject(
            s,
            401,
            "Webhook signature verification failed"@,
        ),
        Err(VerificationError::MalformedPayload) => square_reject(
            s,
            400,
            "Invalid JSON payload"@,
        ),
        Ok(ev) => {
            if has_event(s, ev.event_id) {
                SquareStepV {
                    store: s,
                    resp: WebhookResponseV::Accepted { duplicate: true, error: None },
                    notice: None,
                }
            } else {
                let wid = s.events.len() as int;
                let s1 = with_logged(
                    s,
                    CreateWebhookEventV {
                        provider: PaymentProvider::Square,
                        event_type: ev.event_type,
                        event_id: ev.event_id,
                        payload: body,
                    },
                    now,
                );
                let step = spec_dispatch_square(s1, ev, wid, now);
                match step.1 {
                    Ok(notice) => SquareStepV {
                        store: with_marked(step.0, wid, None, now),
                        resp: WebhookResponseV::Accepted { duplicate: false, error: None },
                        notice: notice,
                    },
                    Err(msg) => SquareStepV {
                        store: with_marked(step.0, wid, Some(msg), now),
                        resp: WebhookResponseV::Accepted { duplicate: false, error: Some(msg) },
                        notice: None,
                    },
                }
            }
        },
    }
}

/// Process a `payment.updated` event against the store. `Ok` carries the
/// notification to fire when an order was created for a buyer with an
/// email address; a duplicate payment is success without a new order.
pub fn handle_payment_updated(
    store: &mut WebhookStore,
    event: &SquareWebhookEvent,
    webhook_id: usize,
    now: i64,
) -> (r: Result<Option<OrderConfirmation>, String>)
    requires
        store_wf(old(store)@),
    ensures
        store_wf(final(store)@),
        ({
            let step = spec_handle_payment_updated(old(store)@, event@, webhook_id as int, now as int);
            final(store)@ == step.0 && (match (r, step.1) {
                (Ok(n), Ok(nm)) => opt_conf_view(n) == nm,
                (Err(e), Err(em)) => e@ == em,
                _ => false,
            })
        }),
{
    let payment = match &event.data.object {
        Some(obj) => match &obj.payment {
            Some(p) => p,
            None => {
                return Err(String::from_str("Missing payment object in event data"));
            },
        },
        None => {
            return Err(String::from_str("Missing payment object in event data"));
        },
    };
    if !str_eq(payment.status.as_str(), "COMPLETED") {
        return Ok(None);
    }
    let order = CreateOrder {
        payment_provider: PaymentProvider::Square,
        payment_id: payment.id.clone(),
        payment_intent_id: None,
        customer_email: match &payment.buyer_email_address {
            Some(e) => Some(e.clone()),
            None => None,
        },
        customer_name: None,
        total_amount: payment.amount_money.amount,
        currency: ascii_upper_string(payment.amount_money.currency.as_str()),
        status: OrderStatus::Completed,
        webhook_event_id: Some(webhook_id),
    };
    proof {
        assert(order@ == square_order_request(event@.data.object->0.payment->0, webhook_id as int));
    }
    match store.create_order(order, now) {
        Ok(_) => {
            match &payment.buyer_email_address {
                Some(email) => Ok(
                    Some(
                        OrderConfirmation {
                            email: email.clone(),
                            order_ref: payment.id.clone(),
                            amount: payment.amount_money.amount,
                        },
                    ),
                ),
                None => Ok(None),
            }
        },
        Err(OrderConflict) => {
            // Another delivery of the same payment already created the
            // order: success, no new row.
            Ok(None)
        },
    }
}

/// The Square webhook endpoint on one delivery.
pub fn handle_square_webhook(
    store: &mut WebhookStore,
    signature_key: &str,
    webhook_url: &str,
    signature_header: Option<&str>,
    body: &str,
    now: i64,
) -> (r: HandlerOutcome)
    requires
        store_wf(old(store)@),
    ensures
        store_wf(final(store)@),
        ({
            let step = spec_handle_square(
                old(store)@,
                signature_key@,
                webhook_url@,
                opt_str_view(signature_header),
                body@,
                now as int,
            );
            final(store)@ == step.store && r.response@ == step.resp && opt_conf_view(
                r.notification,
            ) == step.notice
        }),
{
    let event = match verify_square_event(signature_key, webhook_url, signature_header, body) {
        Ok(e) => e,
        Err(VerificationError::MissingSignatureHeader) => {
            return HandlerOutcome {
                response: WebhookResponse::Rejected {
                    status: 400,
                    message: String::from_str("Missing x-square-hmacsha256-signature header"),
                },
                notification: None,
            };
        },
        Err(VerificationError::SignatureMismatch) => {
            return HandlerOutcome {
                response: WebhookResponse::Rejected {
                    status: 401,
                    message: String::from_str("Webhook signature verification failed"),
                },
                notification: None,
            };
        },
        Err(VerificationError::MalformedPayload) => {
            return HandlerOutcome {
                response: WebhookResponse::Rejected {
                    status: 400,
                    message: String::from_str("Invalid JSON payload"),
                },
                notification: None,
            };
        },
    };
    if store.is_event_processed(event.event_id.as_str()) {
        return HandlerOutcome {
            response: WebhookResponse::Accepted { duplicate: true, error: None },
            notification: None,
        };
    }
    let row = CreateWebhookEvent {
        provider: PaymentProvider::Square,
        event_type: event.event_type.clone(),
        event_id: event.event_id.clone(),
        payload: body.to_owned(),
    };
    let webhook_id = match store.log_webhook_event(row, now) {
        Some(id) => id,
        None => {
            // The uniqueness constraint caught a concurrent duplicate:
            // answer as for one. Unreachable here, since the store is
            // ours alone between the check and the insert.
            return HandlerOutcome {
                response: WebhookResponse::Accepted { duplicate: true, error: None },
                notification: None,
            };
        },
    };
    let result = if str_eq(event.event_type.as_str(), "payment.updated") {
        handle_payment_updated(store, &event, webhook_id, now)
    } else {
        Ok(None)
    };
    match result {
        Ok(notice) => {
            store.mark_webhook_processed(webhook_id, true, None, now);
            HandlerOutcome {
                response: WebhookResponse::Accepted { duplicate: false, error: None },
                notification: notice,
            }
        },
        Err(msg) => {
            store.mark_webhook_processed(webhook_id, false, Some(msg.clone()), now);
            HandlerOutcome {
                response: WebhookResponse::Accepted { duplicate: false, error: Some(msg) },
                notification: None,
            }
        },
    }
}

} // verus!
