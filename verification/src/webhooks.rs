//! Shared webhook types and the event/order store.
//!
//! The store models the two persisted tables: an append-only log of
//! inbound webhook events keyed by the provider-assigned `event_id`, and
//! the orders materialized from them. Uniqueness of `event_id`, of
//! `(payment_provider, payment_id)`, and of a present
//! `payment_intent_id` is the store's well-formedness invariant
//! `store_wf`; the insert operations refuse — rather than duplicate — a
//! row that would break it, so a second delivery of the same payment is
//! told "already handled" instead of creating a second order.

use vstd::prelude::*;

use crate::strutil::str_eq;

verus! {

#[derive(Clone, Copy, PartialEq, Eq, Structural, Debug)]
pub enum PaymentProvider {
    Stripe,
    Square,
}

#[derive(Clone, Copy, PartialEq, Eq, Structural, Debug)]
pub enum OrderStatus {
    Pending,
    Completed,
    Failed,
    Refunded,
}

/// Lowercase storage tag of a provider.
pub open spec fn provider_text(p: PaymentProvider) -> Seq<char> {
    match p {
        PaymentProvider::Stripe => "stripe"@,
        PaymentProvider::Square => "square"@,
    }
}

/// Lowercase storage tag of an order status.
pub open spec fn status_text(s: OrderStatus) -> Seq<char> {
    match s {
        OrderStatus::Pending => "pending"@,
        OrderStatus::Completed => "completed"@,
        OrderStatus::Failed => "failed"@,
        OrderStatus::Refunded => "refunded"@,
    }
}

impl OrderStatus {
    /// The lowercase tag the storage layer records.
    pub fn text(&self) -> (r: String)
        ensures
            r@ == status_text(*self),
    {
        match self {
            OrderStatus::Pending => String::from_str("pending"),
            OrderStatus::Completed => String::from_str("completed"),
            OrderStatus::Failed => String::from_str("failed"),
            OrderStatus::Refunded => String::from_str("refunded"),
        }
    }
}

impl PaymentProvider {
    /// The lowercase tag the storage layer records.
    pub fn text(&self) -> (r: String)
        ensures
            r@ == provider_text(*self),
    {
        match self {
            PaymentProvider::Stripe => String::from_str("stripe"),
            PaymentProvider::Square => String::from_str("square"),
        }
    }
}

pub struct WebhookEventV {
    pub id: int,
    pub provider: PaymentProvider,
    pub event_type: Seq<char>,
    pub event_id: Seq<char>,
    pub payload: Seq<char>,
    pub processed: bool,
    pub processed_at: Option<int>,
    pub error_message: Option<Seq<char>>,
    pub created_at: int,
}

/// One row of the webhook event log.
pub struct WebhookEvent {
    pub id: usize,
    pub provider: PaymentProvider,
    pub event_type: String,
    pub event_id: String,
    pub payload: String,
    pub processed: bool,
    pub processed_at: Option<i64>,
    pub error_message: Option<String>,
    pub created_at: i64,
}

pub open spec fn opt_view(o: Option<String>) -> Option<Seq<char>> {
    match o {
        Some(s) => Some(s@),
        None => None,
    }
}

pub open spec fn opt_int_view(o: Option<i64>) -> Option<int> {
    match o {
        Some(n) => Some(n as int),
        None => None,
    }
}

impl View for WebhookEvent {
    type V = WebhookEventV;

    open spec fn view(&self) -> WebhookEventV {
        WebhookEventV {
            id: self.id as int,
            provider: self.provider,
            event_type: self.event_type@,
            event_id: self.event_id@,
            payload: self.payload@,
            processed: self.processed,
            processed_at: opt_int_view(self.processed_at),
            error_message: opt_view(self.error_message),
            created_at: self.created_at as int,
        }
    }
}

pub struct OrderV {
    pub id: int,
    pub payment_provider: PaymentProvider,
    pub payment_id: Seq<char>,
    pub payment_intent_id: Option<Seq<char>>,
    pub customer_email: Option<Seq<char>>,
    pub customer_name: Option<Seq<char>>,
    pub total_amount: int,
    pub currency: Seq<char>,
    pub status: OrderStatus,
    pub webhook_event_id: Option<int>,
    pub created_at: int,
    pub updated_at: int,
}

/// One canonical order row.
pub struct Order {
    pub id: usize,
    pub payment_provider: PaymentProvider,
    pub payment_id: String,
    pub payment_intent_id: Option<String>,
    pub customer_email: Option<String>,
    pub customer_name: Option<String>,
    pub total_amount: i64,
    pub currency: String,
    pub status: OrderStatus,
    pub webhook_event_id: Option<usize>,
    pub created_at: i64,
    pub updated_at: i64,
}

pub open spec fn opt_usize_view(o: Option<usize>) -> Option<int> {
    match o {
        Some(n) => Some(n as int),
        None => None,
    }
}

impl View for Order {
    type V = OrderV;

    open spec fn view(&self) -> OrderV {
        OrderV {
            id: self.id as int,
            payment_provider: self.payment_provider,
            payment_id: self.payment_id@,
            payment_intent_id: opt_view(self.payment_intent_id),
            customer_email: opt_view(self.customer_email),
            customer_name: opt_view(self.customer_name),
            total_amount: self.total_amount as int,
            currency: self.currency@,
            status: self.status,
            webhook_event_id: opt_usize_view(self.webhook_event_id),
            created_at: self.created_at as int,
            updated_at: self.updated_at as int,
        }
    }
}

pub struct CreateWebhookEventV {
    pub provider: PaymentProvider,
    pub event_type: Seq<char>,
    pub event_id: Seq<char>,
    pub payload: Seq<char>,
}

/// What a handler hands the store to log one verified inbound event.
pub struct CreateWebhookEvent {
    pub provider: PaymentProvider,
    pub event_type: String,
    pub event_id: String,
    pub payload: String,
}

impl View for CreateWebhookEvent {
    type V = CreateWebhookEventV;

    open spec fn view(&self) -> CreateWebhookEventV {
        CreateWebhookEventV {
            provider: self.provider,
            event_type: self.event_type@,
            event_id: self.event_id@,
            payload: self.payload@,
        }
    }
}

pub struct CreateOrderV {
    pub payment_provider: PaymentProvider,
    pub payment_id: Seq<char>,
    pub payment_intent_id: Option<Seq<char>>,
    pub customer_email: Option<Seq<char>>,
    pub customer_name: Option<Seq<char>>,
    pub total_amount: int,
    pub currency: Seq<char>,
    pub status: OrderStatus,
    pub webhook_event_id: Option<int>,
}

/// What the materializer hands the store to create one order.
pub struct CreateOrder {
    pub payment_provider: PaymentProvider,
    pub payment_id: String,
    pub payment_intent_id: Option<String>,
    pub customer_email: Option<String>,
    pub customer_name: Option<String>,
    pub total_amount: i64,
    pub currency: String,
    pub status: OrderStatus,
    pub webhook_event_id: Option<usize>,
}

impl View for CreateOrder {
    type V = CreateOrderV;

    open spec fn view(&self) -> CreateOrderV {
        CreateOrderV {
            payment_provider: self.payment_provider,
            payment_id: self.payment_id@,
            payment_intent_id: opt_view(self.payment_intent_id),
            customer_email: opt_view(self.customer_email),
            customer_name: opt_view(self.customer_name),
            total_amount: self.total_amount as int,
            currency: self.currency@,
            status: self.status,
            webhook_event_id: opt_usize_view(self.webhook_event_id),
        }
    }
}

/// The store refused an order row that would duplicate an existing
/// payment: the second concurrent writer of the same payment must land
/// here and treat it as "already handled", never as a failure.
#[derive(Clone, Copy, PartialEq, Eq, Structural, Debug)]
pub struct OrderConflict;

/// Why a delivery failed authentication: the signature header was
/// absent, the signature did not match the raw body, or the verified
/// body was not a well-formed event. No event is logged in any of these
/// cases, since authenticity was never established.
#[derive(Clone, Copy, PartialEq, Eq, Structural, Debug)]
pub enum VerificationError {
    MissingSignatureHeader,
    SignatureMismatch,
    MalformedPayload,
}

pub enum WebhookResponseV {
    Rejected { status: int, message: Seq<char> },
    Accepted { duplicate: bool, error: Option<Seq<char>> },
}

/// What the HTTP layer sends back: a rejection with a client or server
/// error status and a plain message, or a 200 acknowledgement whose body
/// carries the duplicate marker and, for an application-level failure,
/// the diagnostic — never a non-200 status, so the provider does not
/// retry an event that was durably logged.
pub enum WebhookResponse {
    Rejected { status: u16, message: String },
    Accepted { duplicate: bool, error: Option<String> },
}

impl View for WebhookResponse {
    type V = WebhookResponseV;

    open spec fn view(&self) -> WebhookResponseV {
        match self {
            WebhookResponse::Rejected { status, message } => (WebhookResponseV::Rejected {
                status: *status as int,
                message: message@,
            }),
            WebhookResponse::Accepted { duplicate, error } => (WebhookResponseV::Accepted {
                duplicate: *duplicate,
                error: opt_view(*error),
            }),
        }
    }
}

/// The exact text of a response body: a rejection carries its plain
/// message, and an acknowledgement the JSON object with the `received`,
/// `duplicate` and `error` fields. The diagnostics the pipeline emits
/// hold no character that JSON text would escape.
pub open spec fn response_body_text(v: WebhookResponseV) -> Seq<char> {
    match v {
        WebhookResponseV::Rejected { status: _, message } => message,
        WebhookResponseV::Accepted { duplicate, error } => {
            let head = if duplicate {
                "{\"received\":true,\"duplicate\":true"@
            } else {
                "{\"received\":true"@
            };
            match error {
                Some(e) => head + ",\"error\":\""@ + e + "\"}"@,
                None => head + "}"@,
            }
        },
    }
}

impl WebhookResponse {
    /// The body to send back, exactly `response_body_text` of this
    /// response.
    pub fn body_text(&self) -> (r: String)
        ensures
            r@ == response_body_text(self@),
    {
        match self {
            WebhookResponse::Rejected { status: _, message } => message.clone(),
            WebhookResponse::Accepted { duplicate, error } => {
                let mut out = if *duplicate {
                    String::from_str("{\"received\":true,\"duplicate\":true")
                } else {
                    String::from_str("{\"received\":true")
                };
                match error {
                    Some(e) => {
                        out.append(",\"error\":\"");
                        out.append(e.as_str());
                        out.append("\"}");
                    },
                    None => {
                        out.append("}");
                    },
                }
                out
            },
        }
    }
}

pub struct OrderConfirmationV {
    pub email: Seq<char>,
    pub order_ref: Seq<char>,
    pub amount: int,
}

/// A best-effort order-confirmation notification the caller should fire
/// and forget; its failure must never affect the committed order.
pub struct OrderConfirmation {
    pub email: String,
    pub order_ref: String,
    pub amount: i64,
}

impl View for OrderConfirmation {
    type V = OrderConfirmationV;

    open spec fn view(&self) -> OrderConfirmationV {
        OrderConfirmationV { email: self.email@, order_ref: self.order_ref@, amount: self.amount as int }
    }
}

pub open spec fn opt_conf_view(o: Option<OrderConfirmation>) -> Option<OrderConfirmationV> {
    match o {
        Some(c) => Some(c@),
        None => None,
    }
}

pub open spec fn opt_str_view(o: Option<&str>) -> Option<Seq<char>> {
    match o {
        Some(s) => Some(s@),
        None => None,
    }
}

/// A handler's whole result: the HTTP response and the notification to
/// fire after a created order.
pub struct HandlerOutcome {
    pub response: WebhookResponse,
    pub notification: Option<OrderConfirmation>,
}

pub struct WebhookStoreV {
    pub events: Seq<WebhookEventV>,
    pub orders: Seq<OrderV>,
}

/// The two persisted tables.
pub struct WebhookStore {
    pub events: Vec<WebhookEvent>,
    pub orders: Vec<Order>,
}

impl View for WebhookStore {
    type V = WebhookStoreV;

    open spec fn view(&self) -> WebhookStoreV {
        WebhookStoreV {
            events: self.events@.map_values(|e: WebhookEvent| e@),
            orders: self.orders@.map_values(|o: Order| o@),
        }
    }
}

/// Some event with this provider-assigned id was already logged.
pub open spec fn has_event(s: WebhookStoreV, event_id: Seq<char>) -> bool {
    exists|i: int| 0 <= i < s.events.len() && s.events[i].event_id == event_id
}

/// Some order already records this provider payment.
pub open spec fn has_order_for_payment(
    s: WebhookStoreV,
    provider: PaymentProvider,
    payment_id: Seq<char>,
) -> bool {
    exists|i: int|
        0 <= i < s.orders.len() && s.orders[i].payment_provider == provider
            && s.orders[i].payment_id == payment_id
}

/// Some order already records this payment intent.
pub open spec fn has_order_for_intent(s: WebhookStoreV, payment_intent_id: Seq<char>) -> bool {
    exists|i: int|
        0 <= i < s.orders.len() && s.orders[i].payment_intent_id == Some(payment_intent_id)
}

/// Inserting this order would break a uniqueness constraint: its payment
/// is already recorded, or its payment intent is.
pub open spec fn order_conflict(s: WebhookStoreV, o: CreateOrderV) -> bool {
    ||| has_order_for_payment(s, o.payment_provider, o.payment_id)
    ||| (o.payment_intent_id matches Some(pi) && has_order_for_intent(s, pi))
}

/// Well-formedness of the store: row ids are their positions, event ids
/// are unique, and each payment and each present payment intent is
/// recorded by at most one order.
pub open spec fn store_wf(s: WebhookStoreV) -> bool {
    &&& forall|i: int| 0 <= i < s.events.len() ==> #[trigger] s.events[i].id == i
    &&& forall|i: int, j: int|
        0 <= i < j < s.events.len() ==> s.events[i].event_id != s.events[j].event_id
    &&& forall|i: int| 0 <= i < s.orders.len() ==> #[trigger] s.orders[i].id == i
    &&& forall|i: int, j: int|
        0 <= i < j < s.orders.len() ==> !(s.orders[i].payment_provider
            == s.orders[j].payment_provider && s.orders[i].payment_id == s.orders[j].payment_id)
    &&& forall|i: int, j: int|
        0 <= i < j < s.orders.len() ==> (s.orders[i].payment_intent_id is Some
            ==> s.orders[i].payment_intent_id != s.orders[j].payment_intent_id)
}

/// The event row logged for a verified inbound event.
pub open spec fn log_row(e: CreateWebhookEventV, id: int, now: int) -> WebhookEventV {
    WebhookEventV {
        id: id,
        provider: e.provider,
        event_type: e.event_type,
        event_id: e.event_id,
        payload: e.payload,
        processed: false,
        processed_at: None,
        error_message: None,
        created_at: now,
    }
}

/// The store after logging one event.
pub open spec fn with_logged(s: WebhookStoreV, e: CreateWebhookEventV, now: int) -> WebhookStoreV {
    WebhookStoreV { events: s.events.push(log_row(e, s.events.len() as int, now)), orders: s.orders }
}

/// The event row after its terminal `mark_processed` update.
pub open spec fn marked_row(
    row: WebhookEventV,
    error_message: Option<Seq<char>>,
    now: int,
) -> WebhookEventV {
    WebhookEventV {
        id: row.id,
        provider: row.provider,
        event_type: row.event_type,
        event_id: row.event_id,
        payload: row.payload,
        processed: true,
        processed_at: Some(now),
        error_message: error_message,
        created_at: row.created_at,
    }
}

/// The store after marking one event row processed.
pub open spec fn with_marked(
    s: WebhookStoreV,
    webhook_id: int,
    error_message: Option<Seq<char>>,
    now: int,
) -> WebhookStoreV {
    WebhookStoreV {
        events: s.events.update(webhook_id, marked_row(s.events[webhook_id], error_message, now)),
        orders: s.orders,
    }
}

/// The order row created from a materialization request.
pub open spec fn order_row(o: CreateOrderV, id: int, now: int) -> OrderV {
    OrderV {
        id: id,
        payment_provider: o.payment_provider,
        payment_id: o.payment_id,
        payment_intent_id: o.payment_intent_id,
        customer_email: o.customer_email,
        customer_name: o.customer_name,
        total_amount: o.total_amount,
        currency: o.currency,
        status: o.status,
        webhook_event_id: o.webhook_event_id,
        created_at: now,
        updated_at: now,
    }
}

/// The store after creating one order.
pub open spec fn with_order(s: WebhookStoreV, o: CreateOrderV, now: int) -> WebhookStoreV {
    WebhookStoreV { events: s.events, orders: s.orders.push(order_row(o, s.orders.len() as int, now)) }
}

impl WebhookStore {
    /// An empty store.
    pub fn new() -> (r: Self)
        ensures
            r@.events.len() == 0,
            r@.orders.len() == 0,
            store_wf(r@),
    {
        WebhookStore { events: Vec::new(), orders: Vec::new() }
    }

    /// The idempotency gate: whether this provider event id was already
    /// logged (whatever its processing outcome).
    pub fn is_event_processed(&self, event_id: &str) -> (r: bool)
        ensures
            r == has_event(self@, event_id@),
    {
        let n = self.events.len();
        let mut i: usize = 0;
        let mut found = false;
        while i < n
            invariant
                n == self.events@.len(),
                i <= n,
                self@.events.len() == n,
                forall|k: int|
                    0 <= k < n ==> #[trigger] self@.events[k] == self.events@[k]@,
                found == (exists|k: int| 0 <= k < i && self@.events[k].event_id == event_id@),
            decreases n - i,
        {
            if str_eq(self.events[i].event_id.as_str(), event_id) {
                found = true;
                proof {
                    assert(self@.events[i as int].event_id == event_id@);
                }
            }
            i += 1;
        }
        found
    }

    /// Log one verified inbound event with `processed = false`. Refuses
    /// (returns `None`, changing nothing) an event id already present —
    /// the uniqueness constraint of the event table.
    pub fn log_webhook_event(&mut self, e: CreateWebhookEvent, now: i64) -> (r: Option<usize>)
        requires
            store_wf(old(self)@),
        ensures
            store_wf(final(self)@),
            has_event(old(self)@, e@.event_id) ==> r is None && final(self)@ == old(self)@,
            !has_event(old(self)@, e@.event_id) ==> r == Some(old(self)@.events.len() as usize)
                && final(self)@ == with_logged(old(self)@, e@, now as int),
    {
        if self.is_event_processed(e.event_id.as_str()) {
            return None;
        }
        let id = self.events.len();
        let row = WebhookEvent {
            id: id,
            provider: e.provider,
            event_type: e.event_type,
            event_id: e.event_id,
            payload: e.payload,
            processed: false,
            processed_at: None,
            error_message: None,
            created_at: now,
        };
        let ghost oldv = self@;
        self.events.push(row);
        proof {
            assert(self@.events =~= oldv.events.push(log_row(e@, oldv.events.len() as int, now as int)));
            assert(self@.orders =~= oldv.orders);
        }
        Some(id)
    }

    /// Terminal update of one event row: `processed = true`,
    /// `processed_at = now`, and the diagnostic message when processing
    /// failed.
    pub fn mark_webhook_processed(
        &mut self,
        webhook_id: usize,
        success: bool,
        error_message: Option<String>,
        now: i64,
    )
        requires
            store_wf(old(self)@),
            webhook_id < old(self)@.events.len(),
        ensures
            store_wf(final(self)@),
            final(self)@ == with_marked(
                old(self)@,
                webhook_id as int,
                if success {
                    None
                } else {
                    opt_view(error_message)
                },
                now as int,
            ),
    {
        let ghost oldv = self@;
        let old_row = &self.events[webhook_id];
        let row = WebhookEvent {
            id: old_row.id,
            provider: old_row.provider,
            event_type: old_row.event_type.clone(),
            event_id: old_row.event_id.clone(),
            payload: old_row.payload.clone(),
            processed: true,
            processed_at: Some(now),
            error_message: if success {
                None
            } else {
                error_message
            },
            created_at: old_row.created_at,
        };
        self.events.set(webhook_id, row);
        proof {
            assert(self@.events =~= oldv.events.update(
                webhook_id as int,
                marked_row(oldv.events[webhook_id as int], if success {
                    None
                } else {
                    opt_view(error_message)
                }, now as int),
            ));
            assert(self@.orders =~= oldv.orders);
        }
    }

    /// Whether an order already records this provider payment.
    pub fn order_exists_by_payment(&self, provider: PaymentProvider, payment_id: &str) -> (r:
        bool)
        ensures
            r == has_order_for_payment(self@, provider, payment_id@),
    {
        let n = self.orders.len();
        let mut i: usize = 0;
        let mut found = false;
        while i < n
            invariant
                n == self.orders@.len(),
                i <= n,
                self@.orders.len() == n,
                forall|k: int|
                    0 <= k < n ==> #[trigger] self@.orders[k] == self.orders@[k]@,
                found == (exists|k: int|
                    0 <= k < i && self@.orders[k].payment_provider == provider
                        && self@.orders[k].payment_id == payment_id@),
            decreases n - i,
        {
            if self.orders[i].payment_provider == provider && str_eq(
                self.orders[i].payment_id.as_str(),
                payment_id,
            ) {
                found = true;
                proof {
                    assert(self@.orders[i as int].payment_provider == provider
                        && self@.orders[i as int].payment_id == payment_id@);
                }
            }
            i += 1;
        }
        found
    }

    /// Whether an order already records this payment intent.
    pub fn order_exists_by_intent(&self, payment_intent_id: &str) -> (r: bool)
        ensures
            r == has_order_for_intent(self@, payment_intent_id@),
    {
        let n = self.orders.len();
        let mut i: usize = 0;
        let mut found = false;
        while i < n
            invariant
                n == self.orders@.len(),
                i <= n,
                self@.orders.len() == n,
                forall|k: int|
                    0 <= k < n ==> #[trigger] self@.orders[k] == self.orders@[k]@,
                found == (exists|k: int|
                    0 <= k < i && self@.orders[k].payment_intent_id == Some(payment_intent_id@)),
            decreases n - i,
        {
            let matches_here = match &self.orders[i].payment_intent_id {
                Some(pi) => str_eq(pi.as_str(), payment_intent_id),
                None => false,
            };
            if matches_here {
                found = true;
                proof {
                    assert(self@.orders[i as int].payment_intent_id == Some(payment_intent_id@));
                }
            }
            i += 1;
        }
        found
    }

    /// Create one order, refusing a duplicate of an existing payment or
    /// payment intent: the authoritative idempotency guard.
    pub fn create_order(&mut self, o: CreateOrder, now: i64) -> (r: Result<usize, OrderConflict>)
        requires
            store_wf(old(self)@),
        ensures
            store_wf(final(self)@),
            order_conflict(old(self)@, o@) ==> r is Err && final(self)@ == old(self)@,
            !order_conflict(old(self)@, o@) ==> r == Ok::<usize, OrderConflict>(
                old(self)@.orders.len() as usize,
            ) && final(self)@ == with_order(old(self)@, o@, now as int),
    {
        let dup_payment = self.order_exists_by_payment(o.payment_provider, o.payment_id.as_str());
        let dup_intent = match &o.payment_intent_id {
            Some(pi) => self.order_exists_by_intent(pi.as_str()),
            None => false,
        };
        if dup_payment || dup_intent {
            return Err(OrderConflict);
        }
        let id = self.orders.len();
        let row = Order {
            id: id,
            payment_provider: o.payment_provider,
            payment_id: o.payment_id,
            payment_intent_id: o.payment_intent_id,
            customer_email: o.customer_email,
            customer_name: o.customer_name,
            total_amount: o.total_amount,
            currency: o.currency,
            status: o.status,
            webhook_event_id: o.webhook_event_id,
            created_at: now,
            updated_at: now,
        };
        let ghost oldv = self@;
        self.orders.push(row);
        proof {
            assert(self@.orders =~= oldv.orders.push(order_row(o@, oldv.orders.len() as int, now as int)));
            assert(self@.events =~= oldv.events);
        }
        Ok(id)
    }
}

} // verus!
