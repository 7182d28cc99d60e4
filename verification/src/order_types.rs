//! Storefront order types: shipping address, display status, and the
//! payment method a checkout chooses.

use vstd::prelude::*;

verus! {

#[derive(Clone, Debug)]
pub struct ShippingAddress {
    pub street: String,
    pub city: String,
    pub state: String,
    pub zip: String,
    pub country: String,
}

#[derive(Clone, Copy, PartialEq, Eq, Structural, Debug)]
pub enum OrderStatus {
    Pending,
    Processing,
    Shipped,
    Delivered,
    Cancelled,
}

pub open spec fn status_label(s: OrderStatus) -> Seq<char> {
    match s {
        OrderStatus::Pending => "Pending"@,
        OrderStatus::Processing => "Processing"@,
        OrderStatus::Shipped => "Shipped"@,
        OrderStatus::Delivered => "Delivered"@,
        OrderStatus::Cancelled => "Cancelled"@,
    }
}

pub open spec fn status_badge_class(s: OrderStatus) -> Seq<char> {
    match s {
        OrderStatus::Pending => "badge"@,
        OrderStatus::Processing => "badge-primary"@,
        OrderStatus::Shipped => "badge-info"@,
        OrderStatus::Delivered => "badge-success"@,
        OrderStatus::Cancelled => "badge-error"@,
    }
}

impl OrderStatus {
    /// Human-readable label of the status.
    pub fn label(&self) -> (r: &'static str)
        ensures
            r@ == status_label(*self),
    {
        match self {
            OrderStatus::Pending => "Pending",
            OrderStatus::Processing => "Processing",
            OrderStatus::Shipped => "Shipped",
            OrderStatus::Delivered => "Delivered",
            OrderStatus::Cancelled => "Cancelled",
        }
    }

    /// CSS badge class of the status.
    pub fn badge_class(&self) -> (r: &'static str)
        ensures
            r@ == status_badge_class(*self),
    {
        match self {
            OrderStatus::Pending => "badge",
            OrderStatus::Processing => "badge-primary",
            OrderStatus::Shipped => "badge-info",
            OrderStatus::Delivered => "badge-success",
            OrderStatus::Cancelled => "badge-error",
        }
    }
}

#[derive(Clone, Copy, PartialEq, Eq, Structural, Debug)]
pub enum PaymentMethod {
    Stripe,
    Square,
}

} // verus!
