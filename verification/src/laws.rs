//! The pipeline's guarantees, stated and proved once over the handler
//! specs.

use vstd::prelude::*;

use crate::square::{
    spec_handle_payment_updated, spec_handle_square, square_order_request, square_sig_ok,
    SquareWebhookEventV,
};
use crate::stripe::{
    spec_handle_charge_succeeded, spec_handle_checkout_session_completed, spec_handle_stripe,
    stripe_event_of, StripeEventV, StripeObjectV,
};
use crate::stripe_sig::stripe_sig_ok;
use crate::jsonparse::sp_json;
use crate::webhooks::{
    has_event, has_order_for_intent, order_conflict, store_wf, with_logged, with_marked,
    with_order, CreateOrderV, CreateWebhookEventV, OrderStatus, PaymentProvider,
    WebhookResponseV, WebhookStoreV,
};

verus! {

/// Logging a fresh event preserves the store invariant.
pub proof fn lemma_with_logged_wf(s: WebhookStoreV, e: CreateWebhookEventV, now: int)
    requires
        store_wf(s),
        !has_event(s, e.event_id),
    ensures
        store_wf(with_logged(s, e, now)),
{
}

/// Marking a logged row processed preserves the store invariant.
pub proof fn lemma_with_marked_wf(s: WebhookStoreV, wid: int, err: Option<Seq<char>>, now: int)
    requires
        store_wf(s),
        0 <= wid < s.events.len(),
    ensures
        store_wf(with_marked(s, wid, err, now)),
{
    let s2 = with_marked(s, wid, err, now);
    assert forall|i: int, j: int|
        0 <= i < j < s2.events.len() implies s2.events[i].event_id != s2.events[j].event_id by {
        assert(s.events[i].event_id != s.events[j].event_id);
    }
}

/// Creating a non-conflicting order preserves the store invariant.
pub proof fn lemma_with_order_wf(s: WebhookStoreV, o: CreateOrderV, now: int)
    requires
        store_wf(s),
        !order_conflict(s, o),
    ensures
        store_wf(with_order(s, o, now)),
{
}

/// A rejected or missing Stripe signature changes nothing: no event row,
/// no order, and the answer is a client error.
pub proof fn lemma_stripe_rejects_bad_signature(
    s: WebhookStoreV,
    secret: Seq<char>,
    sig: Option<Seq<char>>,
    body: Seq<char>,
    now: int,
)
    requires
        sig is None || !stripe_sig_ok(secret, sig->0, body),
    ensures
        spec_handle_stripe(s, secret, sig, body, now).store == s,
        spec_handle_stripe(s, secret, sig, body, now).resp matches WebhookResponseV::Rejected {
            status,
            ..
        } && status == 400,
        spec_handle_stripe(s, secret, sig, body, now).notice is None,
{
}

/// A rejected or missing Square signature changes nothing: no event row,
/// no order, and the answer is 400 or 401.
pub proof fn lemma_square_rejects_bad_signature(
    s: WebhookStoreV,
    key: Seq<char>,
    url: Seq<char>,
    sig: Option<Seq<char>>,
    body: Seq<char>,
    now: int,
)
    requires
        sig is None || !square_sig_ok(key, url, sig->0, body),
    ensures
        spec_handle_square(s, key, url, sig, body, now).store == s,
        spec_handle_square(s, key, url, sig, body, now).resp matches WebhookResponseV::Rejected {
            status,
            ..
        } && (status == 400 || status == 401),
        spec_handle_square(s, key, url, sig, body, now).notice is None,
{
}

/// Stripe dispatch never touches the event log, only the orders.
proof fn lemma_stripe_dispatch_keeps_events(s: WebhookStoreV, ev: StripeEventV, wid: int, now: int)
    ensures
        crate::stripe::spec_dispatch_stripe(s, ev, wid, now).0.events == s.events,
{
}

/// Square dispatch never touches the event log, only the orders.
proof fn lemma_square_dispatch_keeps_events(
    s: WebhookStoreV,
    ev: SquareWebhookEventV,
    wid: int,
    now: int,
)
    ensures
        crate::square::spec_dispatch_square(s, ev, wid, now).0.events == s.events,
{
}

/// Idempotency of the Stripe endpoint: once a delivery has been fully
/// processed, redelivering the identical body answers 200 with the
/// duplicate marker and changes nothing — in particular, the two calls
/// together create at most one order.
pub proof fn lemma_stripe_second_delivery_is_duplicate(
    s: WebhookStoreV,
    secret: Seq<char>,
    sig: Option<Seq<char>>,
    body: Seq<char>,
    now1: int,
    now2: int,
)
    requires
        spec_handle_stripe(s, secret, sig, body, now1).resp matches WebhookResponseV::Accepted {
            duplicate,
            ..
        } && !duplicate,
    ensures
        ({
            let st1 = spec_handle_stripe(s, secret, sig, body, now1);
            let st2 = spec_handle_stripe(st1.store, secret, sig, body, now2);
            &&& st2.store == st1.store
            &&& st2.resp == (WebhookResponseV::Accepted { duplicate: true, error: None })
            &&& st2.notice is None
            &&& st1.store.orders.len() <= s.orders.len() + 1
        }),
{
    let st1 = spec_handle_stripe(s, secret, sig, body, now1);
    let ev = stripe_event_of(sp_json(body)->0)->0;
    let wid = s.events.len() as int;
    let s1 = with_logged(
        s,
        CreateWebhookEventV {
            provider: PaymentProvider::Stripe,
            event_type: ev.event_type,
            event_id: ev.event_id,
            payload: body,
        },
        now1,
    );
    lemma_stripe_dispatch_keeps_events(s1, ev, wid, now1);
    let step = crate::stripe::spec_dispatch_stripe(s1, ev, wid, now1);
    assert(step.0.events == s1.events);
    assert(st1.store.events[wid].event_id == ev.event_id);
    assert(has_event(st1.store, ev.event_id));
}

/// Idempotency of the Square endpoint, in the same sense.
pub proof fn lemma_square_second_delivery_is_duplicate(
    s: WebhookStoreV,
    key: Seq<char>,
    url: Seq<char>,
    sig: Option<Seq<char>>,
    body: Seq<char>,
    now1: int,
    now2: int,
)
    requires
        spec_handle_square(s, key, url, sig, body, now1).resp
            matches WebhookResponseV::Accepted { duplicate, .. } && !duplicate,
    ensures
        ({
            let st1 = spec_handle_square(s, key, url, sig, body, now1);
            let st2 = spec_handle_square(st1.store, key, url, sig, body, now2);
            &&& st2.store == st1.store
            &&& st2.resp == (WebhookResponseV::Accepted { duplicate: true, error: None })
            &&& st2.notice is None
            &&& st1.store.orders.len() <= s.orders.len() + 1
        }),
{
    let st1 = spec_handle_square(s, key, url, sig, body, now1);
    let ev = crate::square::sq_event_of(sp_json(body)->0)->0;
    let wid = s.events.len() as int;
    let s1 = with_logged(
        s,
        CreateWebhookEventV {
            provider: PaymentProvider::Square,
            event_type: ev.event_type,
            event_id: ev.event_id,
            payload: body,
        },
        now1,
    );
    lemma_square_dispatch_keeps_events(s1, ev, wid, now1);
    let step = crate::square::spec_dispatch_square(s1, ev, wid, now1);
    assert(step.0.events == s1.events);
    assert(st1.store.events[wid].event_id == ev.event_id);
    assert(has_event(st1.store, ev.event_id));
}

/// A `charge.succeeded` and a `checkout.session.completed` event that
/// reference the same payment intent yield exactly one order between
/// them, in either order of arrival: the first materializes it, the
/// second lands on the intent's uniqueness constraint and is success
/// without a row.
pub proof fn lemma_one_order_per_payment_intent(
    s: WebhookStoreV,
    ev_charge: StripeEventV,
    ev_session: StripeEventV,
    pi: Seq<char>,
    wid1: int,
    wid2: int,
    now1: int,
    now2: int,
)
    requires
        store_wf(s),
        ev_charge.object is Charge && ev_charge.object->Charge_0.payment_intent == Some(pi),
        ev_session.object is CheckoutSession && ev_session.object->CheckoutSession_0.payment_intent
            == Some(pi),
        !has_order_for_intent(s, pi),
        !crate::webhooks::has_order_for_payment(
            s,
            PaymentProvider::Stripe,
            ev_charge.object->Charge_0.id,
        ),
        !crate::webhooks::has_order_for_payment(
            s,
            PaymentProvider::Stripe,
            ev_session.object->CheckoutSession_0.id,
        ),
    ensures
        ({
            let s1 = spec_handle_charge_succeeded(s, ev_charge, wid1, now1).0;
            let s2 = spec_handle_checkout_session_completed(s1, ev_session, wid2, now2).0;
            &&& s2.orders.len() == s.orders.len() + 1
            &&& has_order_for_intent(s2, pi)
            &&& store_wf(s2)
        }),
        ({
            let s1 = spec_handle_checkout_session_completed(s, ev_session, wid1, now1).0;
            let s2 = spec_handle_charge_succeeded(s1, ev_charge, wid2, now2).0;
            &&& s2.orders.len() == s.orders.len() + 1
            &&& has_order_for_intent(s2, pi)
            &&& store_wf(s2)
        }),
{
    let c = ev_charge.object->Charge_0;
    let cs = ev_session.object->CheckoutSession_0;

    let o1 = crate::stripe::stripe_charge_order(c, wid1);
    assert(!order_conflict(s, o1));
    let s1 = with_order(s, o1, now1);
    lemma_with_order_wf(s, o1, now1);
    assert(s1.orders[s.orders.len() as int].payment_intent_id == Some(pi));
    assert(has_order_for_intent(s1, pi));
    let o2 = crate::stripe::stripe_session_order(cs, wid2);
    assert(order_conflict(s1, o2));
    assert(spec_handle_checkout_session_completed(s1, ev_session, wid2, now2).0 == s1);

    let o3 = crate::stripe::stripe_session_order(cs, wid1);
    assert(!order_conflict(s, o3));
    let s3 = with_order(s, o3, now1);
    lemma_with_order_wf(s, o3, now1);
    assert(s3.orders[s.orders.len() as int].payment_intent_id == Some(pi));
    assert(has_order_for_intent(s3, pi));
    let o4 = crate::stripe::stripe_charge_order(c, wid2);
    assert(order_conflict(s3, o4));
    assert(spec_handle_charge_succeeded(s3, ev_charge, wid2, now2).0 == s3);
}

/// A Square `payment.updated` event whose payment has not reached the
/// terminal `COMPLETED` status creates no order and is not an error.
pub proof fn lemma_square_ignores_incomplete_payment(
    s: WebhookStoreV,
    ev: SquareWebhookEventV,
    wid: int,
    now: int,
)
    requires
        ev.data.object is Some,
        ev.data.object->0.payment is Some,
        ev.data.object->0.payment->0.status != "COMPLETED"@,
    ensures
        spec_handle_payment_updated(s, ev, wid, now) == (s, Ok::<
            Option<crate::webhooks::OrderConfirmationV>,
            Seq<char>,
        >(None)),
{
}

/// A non-terminal Square payment leaves the orders exactly as they were
/// through the whole pipeline, and the delivery is still acknowledged
/// with 200 and no error.
pub proof fn lemma_square_incomplete_payment_is_acknowledged(
    s: WebhookStoreV,
    key: Seq<char>,
    url: Seq<char>,
    sig: Seq<char>,
    body: Seq<char>,
    now: int,
)
    requires
        square_sig_ok(key, url, sig, body),
        sp_json(body) is Some,
        crate::square::sq_event_of(sp_json(body)->0) matches Some(ev) && {
            &&& !has_event(s, ev.event_id)
            &&& ev.data.object is Some
            &&& ev.data.object->0.payment is Some
            &&& ev.data.object->0.payment->0.status != "COMPLETED"@
        },
    ensures
        ({
            let st = spec_handle_square(s, key, url, Some(sig), body, now);
            &&& st.store.orders == s.orders
            &&& st.resp == (WebhookResponseV::Accepted { duplicate: false, error: None })
            &&& st.notice is None
        }),
{
    let ev = crate::square::sq_event_of(sp_json(body)->0)->0;
    let wid = s.events.len() as int;
    let s1 = with_logged(
        s,
        CreateWebhookEventV {
            provider: PaymentProvider::Square,
            event_type: ev.event_type,
            event_id: ev.event_id,
            payload: body,
        },
        now,
    );
    lemma_square_dispatch_keeps_events(s1, ev, wid, now);
    assert(spec_handle_payment_updated(s1, ev, wid, now).0 == s1);
    assert(crate::square::spec_dispatch_square(s1, ev, wid, now).0 == s1);
}

/// Round-trip of the money fields on the Stripe side: the order a
/// succeeded payment intent creates carries the payload's integer amount
/// unchanged and its currency uppercased.
pub proof fn lemma_stripe_amount_round_trip(
    s: WebhookStoreV,
    ev: StripeEventV,
    wid: int,
    now: int,
)
    requires
        store_wf(s),
        ev.object is PaymentIntent,
        !order_conflict(s, crate::stripe::stripe_pi_order(ev.object->PaymentIntent_0, wid)),
    ensures
        ({
            let p = ev.object->PaymentIntent_0;
            let s2 = crate::stripe::spec_handle_payment_intent_succeeded(s, ev, wid, now).0;
            let row = s2.orders[s.orders.len() as int];
            &&& s2.orders.len() == s.orders.len() + 1
            &&& row.total_amount == p.amount
            &&& row.currency == crate::strutil::ascii_upper(p.currency)
            &&& row.status == OrderStatus::Completed
            &&& row.customer_email == p.receipt_email
            &&& row.payment_id == p.id
            &&& row.payment_intent_id == Some(p.id)
            &&& store_wf(s2)
        }),
{
    let p = ev.object->PaymentIntent_0;
    lemma_with_order_wf(s, crate::stripe::stripe_pi_order(p, wid), now);
}

/// The whole pipeline on a fresh, correctly signed
/// `payment_intent.succeeded` delivery: exactly one event row and
/// exactly one order are created, the order carries the payload's
/// payment id, amount and uppercased currency, and the answer is a plain
/// 200 acknowledgement.
pub proof fn lemma_stripe_fresh_payment_intent_creates_one_order(
    s: WebhookStoreV,
    secret: Seq<char>,
    sig: Seq<char>,
    body: Seq<char>,
    now: int,
)
    requires
        store_wf(s),
        stripe_sig_ok(secret, sig, body),
        sp_json(body) is Some,
        stripe_event_of(sp_json(body)->0) matches Some(ev) && {
            &&& !has_event(s, ev.event_id)
            &&& ev.event_type == "payment_intent.succeeded"@
            &&& ev.object is PaymentIntent
            &&& !order_conflict(
                s,
                crate::stripe::stripe_pi_order(ev.object->PaymentIntent_0, s.events.len() as int),
            )
        },
    ensures
        ({
            let ev = stripe_event_of(sp_json(body)->0)->0;
            let p = ev.object->PaymentIntent_0;
            let st = spec_handle_stripe(s, secret, Some(sig), body, now);
            let row = st.store.orders[s.orders.len() as int];
            &&& st.store.events.len() == s.events.len() + 1
            &&& st.store.orders.len() == s.orders.len() + 1
            &&& row.payment_id == p.id
            &&& row.payment_intent_id == Some(p.id)
            &&& row.total_amount == p.amount
            &&& row.currency == crate::strutil::ascii_upper(p.currency)
            &&& row.customer_email == p.receipt_email
            &&& st.resp == (WebhookResponseV::Accepted { duplicate: false, error: None })
        }),
{
    let ev = stripe_event_of(sp_json(body)->0)->0;
    let p = ev.object->PaymentIntent_0;
    let wid = s.events.len() as int;
    let s1 = with_logged(
        s,
        CreateWebhookEventV {
            provider: PaymentProvider::Stripe,
            event_type: ev.event_type,
            event_id: ev.event_id,
            payload: body,
        },
        now,
    );
    assert(s1.orders == s.orders);
    assert(!order_conflict(s1, crate::stripe::stripe_pi_order(p, wid)));
    lemma_stripe_dispatch_keeps_events(s1, ev, wid, now);
}

/// Round-trip of the money fields: the order a completed Square payment
/// creates carries the payload's integer amount unchanged and its
/// currency uppercased — no arithmetic, no floating point, anywhere.
pub proof fn lemma_square_amount_round_trip(
    s: WebhookStoreV,
    ev: SquareWebhookEventV,
    wid: int,
    now: int,
)
    requires
        store_wf(s),
        ev.data.object is Some,
        ev.data.object->0.payment is Some,
        ev.data.object->0.payment->0.status == "COMPLETED"@,
        !order_conflict(s, square_order_request(ev.data.object->0.payment->0, wid)),
    ensures
        ({
            let p = ev.data.object->0.payment->0;
            let s2 = spec_handle_payment_updated(s, ev, wid, now).0;
            let row = s2.orders[s.orders.len() as int];
            &&& s2.orders.len() == s.orders.len() + 1
            &&& row.total_amount == p.amount_money.amount
            &&& row.currency == crate::strutil::ascii_upper(p.amount_money.currency)
            &&& row.status == OrderStatus::Completed
            &&& row.customer_email == p.buyer_email_address
            &&& row.payment_id == p.id
            &&& store_wf(s2)
        }),
{
    let p = ev.data.object->0.payment->0;
    lemma_with_order_wf(s, square_order_request(p, wid), now);
}

} // verus!
