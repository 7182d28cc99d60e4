//! Data shapes of the Square payment-creation API, a thin REST
//! pass-through handled outside this crate. Amounts are smallest-unit
//! integers throughout.

use vstd::prelude::*;

verus! {

#[derive(Clone, Debug)]
pub struct AmountMoney {
    pub amount: i64,
    pub currency: String,
}

pub struct SquarePaymentRequest {
    pub amount_money: AmountMoney,
    pub source_id: String,
    pub idempotency_key: Option<String>,
    pub location_id: Option<String>,
}

#[derive(Clone, Debug)]
pub struct Address {
    pub address_line_1: Option<String>,
    pub address_line_2: Option<String>,
    pub locality: Option<String>,
    pub administrative_district_level_1: Option<String>,
    pub postal_code: Option<String>,
    pub country: Option<String>,
}

pub struct SquareCreatePaymentRequest {
    pub source_id: String,
    pub idempotency_key: String,
    pub amount_money: AmountMoney,
    pub location_id: String,
    pub app_fee_money: Option<AmountMoney>,
    pub autocomplete: Option<bool>,
    pub order_id: Option<String>,
    pub buyer_email_address: Option<String>,
    pub billing_address: Option<Address>,
    pub shipping_address: Option<Address>,
    pub note: Option<String>,
}

pub struct Card {
    pub card_brand: String,
    pub last_4: String,
    pub exp_month: Option<i32>,
    pub exp_year: Option<i32>,
}

pub struct CardDetails {
    pub status: String,
    pub card: Option<Card>,
    pub entry_method: String,
}

pub struct Payment {
    pub id: String,
    pub status: String,
    pub amount_money: AmountMoney,
    pub source_type: String,
    pub card_details: Option<CardDetails>,
    pub receipt_number: Option<String>,
    pub receipt_url: Option<String>,
}

pub struct SquareError {
    pub category: String,
    pub code: String,
    pub detail: String,
    pub field: Option<String>,
}

pub struct SquarePaymentResponse {
    pub payment: Option<Payment>,
    pub errors: Option<Vec<SquareError>>,
}

pub struct SquarePaymentIntentResponse {
    pub payment_id: String,
    pub status: String,
    pub receipt_url: Option<String>,
}

} // verus!
