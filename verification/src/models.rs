use vstd::prelude::*;

use std::collections::HashMap;

verus! {

/// An example user record; the internal field never crosses the boundary.
#[derive(Debug)]
pub struct User {
    pub user_id: i32,
    pub user_name: String,
    pub email: String,
    pub is_active: bool,
    pub internal_field: String,
}

/// An example enum whose external tags follow the screaming-snake
/// convention.
#[derive(Clone, Copy, PartialEq, Eq, Structural, Debug)]
pub enum OrderStatus {
    Pending,
    Processing,
    Shipped,
    Delivered,
    Cancelled,
}

/// An example enum whose variants carry explicit renames.
#[derive(Clone, Copy, PartialEq, Eq, Structural, Debug)]
pub enum PaymentMethod {
    CreditCard,
    PayPal,
    BankTransfer,
}

/// An example record with a string-keyed mapping and an optional member.
#[derive(Debug)]
pub struct Settings {
    pub app_name: String,
    pub version: String,
    pub features: HashMap<String, bool>,
    pub theme: Option<String>,
}

/// An example record for streamed data.
#[derive(Debug)]
pub struct LogEntry {
    pub timestamp: i64,
    pub level: String,
    pub message: String,
}

} // verus!
