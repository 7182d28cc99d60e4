//! Data shapes of the shipping integration (rates, labels, tracking,
//! address validation), a thin REST pass-through handled outside this
//! crate. Money amounts in rates are carried as provider-formatted text,
//! never as floating point.

use vstd::prelude::*;

verus! {

pub struct ShippingConfig {
    pub easypost_api_key: String,
    pub easypost_api_url: String,
}

#[derive(Clone, Debug)]
pub struct Address {
    pub name: Option<String>,
    pub street1: String,
    pub street2: Option<String>,
    pub city: String,
    pub state: String,
    pub zip: String,
    pub country: Option<String>,
    pub phone: Option<String>,
    pub email: Option<String>,
}

pub struct ValidateAddressRequest {
    pub address: Address,
}

pub struct ErrorResponse {
    pub error: String,
}

pub struct ShippingRate {
    pub id: String,
    pub carrier: String,
    pub service: String,
    pub rate: String,
    pub currency: String,
    pub delivery_days: Option<i32>,
    pub delivery_date: Option<String>,
}

pub struct ShippingRatesResponse {
    pub success: bool,
    pub rates: Vec<ShippingRate>,
    pub shipment_id: String,
}

pub struct PostageLabel {
    pub label_url: String,
    pub label_pdf_url: Option<String>,
    pub label_zpl_url: Option<String>,
}

pub struct CreateShipmentResponse {
    pub success: bool,
    pub shipment_id: String,
    pub tracking_code: String,
    pub label_url: String,
    pub postage_label: PostageLabel,
}

pub struct TrackingDetail {
    pub datetime: String,
    pub status: String,
    pub message: String,
    pub city: Option<String>,
    pub state: Option<String>,
}

pub struct TrackingResponse {
    pub success: bool,
    pub tracking_code: String,
    pub status: String,
    pub carrier: String,
    pub tracking_details: Vec<TrackingDetail>,
}

pub struct AddressValidationResponse {
    pub success: bool,
    pub is_valid: bool,
    pub original_address: Address,
    pub verified_address: Option<Address>,
    pub messages: Vec<String>,
}

} // verus!
