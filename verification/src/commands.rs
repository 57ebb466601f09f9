use vstd::prelude::*;

use crate::models::{OrderStatus, Settings, User};
use vstd::string::StringExecFns;

verus! {

/// A canned greeting.
pub fn greet() -> (r: String)
    ensures
        r@ == "Hello from Tauri!"@,
{
    ("Hello from Tauri!").to_owned()
}

/// Adds two numbers.
pub fn add_numbers(a: i32, b: i32) -> (r: i32)
    requires
        i32::MIN <= a + b <= i32::MAX,
    ensures
        r == a + b,
{
    a + b
}

/// Builds the canned sample user for an id.
pub fn get_user(user_id: i32) -> (r: User)
    ensures
        r.user_id == user_id,
        r.user_name@ == "John Doe"@,
        r.email@ == "john@example.com"@,
        r.is_active,
{
    User {
        user_id,
        user_name: ("John Doe").to_owned(),
        email: ("john@example.com").to_owned(),
        is_active: true,
        internal_field: ("This field is skipped in serialization").to_owned(),
    }
}

/// Accepts a user unless its name is empty.
pub fn create_user(user: User) -> (r: Result<User, String>)
    ensures
        r is Ok <==> user.user_name@.len() > 0,
        r is Ok ==> r->Ok_0 == user,
        r is Err ==> r->Err_0@ == "Username cannot be empty"@,
{
    if user.user_name.as_str().is_empty() {
        Err(("Username cannot be empty").to_owned())
    } else {
        Ok(user)
    }
}

/// The name of an order status, as its declaration spells it.
pub open spec fn spec_status_name(s: OrderStatus) -> Seq<char> {
    match s {
        OrderStatus::Pending => "Pending"@,
        OrderStatus::Processing => "Processing"@,
        OrderStatus::Shipped => "Shipped"@,
        OrderStatus::Delivered => "Delivered"@,
        OrderStatus::Cancelled => "Cancelled"@,
    }
}

pub fn status_name(s: &OrderStatus) -> (r: &'static str)
    ensures
        r@ == spec_status_name(*s),
{
    match s {
        OrderStatus::Pending => "Pending",
        OrderStatus::Processing => "Processing",
        OrderStatus::Shipped => "Shipped",
        OrderStatus::Delivered => "Delivered",
        OrderStatus::Cancelled => "Cancelled",
    }
}

/// Reports an order's new status.
pub fn update_order_status(order_id: &String, status: &OrderStatus) -> (r: Result<String, String>)
    ensures
        r is Ok,
        r->Ok_0@ == "Order "@ + order_id@ + " updated to "@ + spec_status_name(*status),
{
    let mut out = String::new();
    out.append("Order ");
    out.append(order_id.as_str());
    out.append(" updated to ");
    out.append(status_name(status));
    proof {
        assert(out@ =~= "Order "@ + order_id@ + " updated to "@ + spec_status_name(*status));
    }
    Ok(out)
}

/// Stores the settings handed in and returns them unchanged.
pub fn update_settings(settings: Settings) -> (r: Settings)
    ensures
        r == settings,
{
    settings
}

} // verus!
