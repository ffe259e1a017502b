//! Money and invoices, independent of the platform.
use crate::conversation::ConversationRef;
use crate::json::Json;
use crate::native::PlatformNativeData;
use crate::source::User;
use vstd::prelude::*;

verus! {

/// An amount in the smallest unit of a currency.
#[derive(Debug, PartialEq)]
pub struct Money {
    pub currency: String,
    pub amount: i64,
}

#[derive(Debug, PartialEq)]
pub struct LineItem {
    pub label: String,
    pub amount: Money,
    pub quantity: Option<u32>,
}

#[derive(Debug, PartialEq)]
pub struct CustomerDetails {
    pub name: Option<String>,
    pub email: Option<String>,
    pub phone: Option<String>,
    pub shipping_address: Option<Json>,
}

#[derive(Debug, PartialEq)]
pub struct Invoice {
    pub id: Option<String>,
    pub title: String,
    pub description: String,
    pub payload: String,
    pub items: Vec<LineItem>,
    pub customer_details: CustomerDetails,
    pub flexible_shipping: bool,
    pub platform_data: Option<PlatformNativeData>,
}

#[derive(Debug, PartialEq)]
pub struct InvoiceOptions {
    pub provider_token: Option<String>,
    pub start_parameter: Option<String>,
    pub photo_url: Option<String>,
    pub protect_content: bool,
    pub platform_data: Option<PlatformNativeData>,
}

#[derive(Debug, PartialEq)]
pub struct ShippingOption {
    pub id: String,
    pub title: String,
    pub prices: Vec<LineItem>,
}

#[derive(Debug, Clone, Copy, PartialEq, Eq, Structural)]
pub enum PaymentStatus {
    Paid,
    Refunded,
}

#[derive(Debug, PartialEq)]
pub struct Payment {
    pub id: String,
    pub invoice_id: Option<String>,
    pub payer: Option<User>,
    pub conversation: ConversationRef,
    pub total: Money,
    pub status: PaymentStatus,
    /// A point in time, in seconds since the epoch.
    pub occurred_at: Option<i64>,
    pub platform_data: Option<PlatformNativeData>,
}

#[derive(Debug, PartialEq)]
pub struct ShippingRequest {
    pub id: String,
    pub user: User,
    pub invoice_payload: String,
    pub address: Json,
    pub platform_data: Option<PlatformNativeData>,
}

#[derive(Debug, PartialEq)]
pub struct CheckoutRequest {
    pub id: String,
    pub user: User,
    pub invoice_payload: String,
    pub total: Money,
    pub customer_details: CustomerDetails,
    pub platform_data: Option<PlatformNativeData>,
}

} // verus!
