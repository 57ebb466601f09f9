use vstd::prelude::*;

use crate::model::{
    ChannelDecl, Constraint, Convention, FieldDecl, FunctionDecl, MatchMode, Model, ParamDecl,
    PrimType, TypeBody, TypeDecl, TypeRef, VariantDecl,
};

verus! {

fn s(x: &str) -> (r: String)
    ensures
        r@ == x@,
{
    x.to_owned()
}

fn plain_field(name: &str, ty: TypeRef) -> (r: FieldDecl)
    ensures
        r.name@ == name@,
        r.ty == ty,
        !r.optional,
        r.rename is None,
        !r.skip,
        r.constraints@.len() == 0,
{
    FieldDecl {
        name: s(name),
        ty,
        optional: false,
        rename: None,
        skip: false,
        constraints: Vec::new(),
    }
}

fn unit_variant(name: &str) -> (r: VariantDecl)
    ensures
        r.name@ == name@,
        r.rename is None,
        r.payload is None,
{
    VariantDecl { name: s(name), rename: None, payload: None }
}

fn renamed_variant(name: &str, rename: &str) -> (r: VariantDecl)
    ensures
        r.name@ == name@,
        r.rename is Some && r.rename->0@ == rename@,
        r.payload is None,
{
    VariantDecl { name: s(name), rename: Some(s(rename)), payload: None }
}

fn param(name: &str, ty: TypeRef, optional: bool) -> (r: ParamDecl)
    ensures
        r.name@ == name@,
        r.ty == ty,
        r.optional == optional,
{
    ParamDecl { name: s(name), ty, optional }
}

fn user_decl() -> (r: TypeDecl) {
    let mut fields: Vec<FieldDecl> = Vec::new();
    let mut user_id = plain_field("user_id", TypeRef::Prim(PrimType::Int32));
    user_id.constraints.push(Constraint::Range { min: Some(1), max: None });
    fields.push(user_id);
    let mut user_name = plain_field("user_name", TypeRef::Prim(PrimType::Text));
    user_name.constraints.push(Constraint::Length { min: Some(3), max: Some(50) });
    fields.push(user_name);
    let mut email = plain_field("email", TypeRef::Prim(PrimType::Text));
    email.constraints.push(Constraint::Email);
    fields.push(email);
    fields.push(plain_field("is_active", TypeRef::Prim(PrimType::Boolean)));
    let mut internal = plain_field("internal_field", TypeRef::Prim(PrimType::Text));
    internal.skip = true;
    fields.push(internal);
    TypeDecl { name: s("User"), convention: Convention::Camel, body: TypeBody::Struct(fields) }
}

fn product_decl() -> (r: TypeDecl) {
    let mut fields: Vec<FieldDecl> = Vec::new();
    let mut id = plain_field("id", TypeRef::Prim(PrimType::Int32));
    id.rename = Some(s("productId"));
    id.constraints.push(Constraint::Range { min: Some(1), max: None });
    fields.push(id);
    let mut name = plain_field("name", TypeRef::Prim(PrimType::Text));
    name.constraints.push(Constraint::Length { min: Some(1), max: Some(100) });
    fields.push(name);
    fields.push(plain_field("price", TypeRef::Prim(PrimType::Float64)));
    let mut in_stock = plain_field(
        "in_stock",
        TypeRef::OptionalOf(Box::new(TypeRef::Prim(PrimType::Boolean))),
    );
    in_stock.optional = true;
    fields.push(in_stock);
    TypeDecl {
        name: s("Product"),
        convention: Convention::AsDeclared,
        body: TypeBody::Struct(fields),
    }
}

fn order_status_decl() -> (r: TypeDecl) {
    let mut variants: Vec<VariantDecl> = Vec::new();
    variants.push(unit_variant("Pending"));
    variants.push(unit_variant("Processing"));
    variants.push(unit_variant("Shipped"));
    variants.push(unit_variant("Delivered"));
    variants.push(unit_variant("Cancelled"));
    TypeDecl {
        name: s("OrderStatus"),
        convention: Convention::ScreamingSnake,
        body: TypeBody::Enum(variants),
    }
}

fn payment_method_decl() -> (r: TypeDecl) {
    let mut variants: Vec<VariantDecl> = Vec::new();
    variants.push(renamed_variant("CreditCard", "credit_card"));
    variants.push(renamed_variant("PayPal", "paypal"));
    variants.push(renamed_variant("BankTransfer", "bank_transfer"));
    TypeDecl {
        name: s("PaymentMethod"),
        convention: Convention::AsDeclared,
        body: TypeBody::Enum(variants),
    }
}

fn order_decl() -> (r: TypeDecl) {
    let mut fields: Vec<FieldDecl> = Vec::new();
    let mut order_id = plain_field("order_id", TypeRef::Prim(PrimType::Text));
    order_id.constraints.push(Constraint::Length { min: Some(1), max: None });
    fields.push(order_id);
    fields.push(plain_field("user", TypeRef::Decl(s("User"))));
    let mut products = plain_field(
        "products",
        TypeRef::SequenceOf(Box::new(TypeRef::Decl(s("Product")))),
    );
    products.constraints.push(Constraint::Length { min: Some(1), max: None });
    fields.push(products);
    fields.push(plain_field("status", TypeRef::Decl(s("OrderStatus"))));
    fields.push(plain_field("payment_method", TypeRef::Decl(s("PaymentMethod"))));
    fields.push(plain_field("total_amount", TypeRef::Prim(PrimType::Float64)));
    TypeDecl { name: s("Order"), convention: Convention::Camel, body: TypeBody::Struct(fields) }
}

fn settings_decl() -> (r: TypeDecl) {
    let mut fields: Vec<FieldDecl> = Vec::new();
    let mut app_name = plain_field("app_name", TypeRef::Prim(PrimType::Text));
    app_name.constraints.push(Constraint::Length { min: Some(1), max: Some(100) });
    fields.push(app_name);
    let mut version = plain_field("version", TypeRef::Prim(PrimType::Text));
    version.constraints.push(
        Constraint::Pattern { pattern: s("^\\d+\\.\\d+\\.\\d+$"), mode: MatchMode::Partial },
    );
    fields.push(version);
    fields.push(plain_field("features", TypeRef::MapOf(Box::new(TypeRef::Prim(PrimType::Boolean)))));
    let mut theme = plain_field("theme", TypeRef::OptionalOf(Box::new(TypeRef::Prim(PrimType::Text))));
    theme.optional = true;
    fields.push(theme);
    TypeDecl { name: s("Settings"), convention: Convention::Camel, body: TypeBody::Struct(fields) }
}

fn progress_update_decl() -> (r: TypeDecl) {
    let mut fields: Vec<FieldDecl> = Vec::new();
    let mut task_id = plain_field("task_id", TypeRef::Prim(PrimType::Text));
    task_id.constraints.push(Constraint::Length { min: Some(1), max: None });
    fields.push(task_id);
    fields.push(plain_field("progress", TypeRef::Prim(PrimType::Float64)));
    fields.push(plain_field("message", TypeRef::Prim(PrimType::Text)));
    TypeDecl {
        name: s("ProgressUpdate"),
        convention: Convention::Camel,
        body: TypeBody::Struct(fields),
    }
}

fn log_entry_decl() -> (r: TypeDecl) {
    let mut fields: Vec<FieldDecl> = Vec::new();
    fields.push(plain_field("timestamp", TypeRef::Prim(PrimType::Int64)));
    let mut level = plain_field("level", TypeRef::Prim(PrimType::Text));
    level.constraints.push(Constraint::Length { min: Some(1), max: None });
    fields.push(level);
    let mut message = plain_field("message", TypeRef::Prim(PrimType::Text));
    message.constraints.push(Constraint::Length { min: Some(1), max: Some(500) });
    fields.push(message);
    TypeDecl { name: s("LogEntry"), convention: Convention::Camel, body: TypeBody::Struct(fields) }
}

fn simple_fn(name: &str, ret: Option<TypeRef>, fallible: bool, asynchronous: bool) -> (r:
    FunctionDecl)
    ensures
        r.name@ == name@,
        r.params@.len() == 0,
        r.ret == ret,
        r.fallible == fallible,
        r.channels@.len() == 0,
        r.asynchronous == asynchronous,
{
    FunctionDecl { name: s(name), params: Vec::new(), ret, fallible, channels: Vec::new(), asynchronous }
}

/// The example declarations the backend ships: every type and every
/// command of the demonstration domain, with their naming and validation
/// metadata.
pub fn sample_model() -> (r: Model)
    ensures
        r.types@.len() == 8,
        r.functions@.len() == 12,
{
    let mut types: Vec<TypeDecl> = Vec::new();
    types.push(user_decl());
    types.push(product_decl());
    types.push(order_status_decl());
    types.push(payment_method_decl());
    types.push(order_decl());
    types.push(settings_decl());
    types.push(progress_update_decl());
    types.push(log_entry_decl());

    let mut functions: Vec<FunctionDecl> = Vec::new();

    functions.push(simple_fn("greet", Some(TypeRef::Prim(PrimType::Text)), false, false));

    let mut add_numbers = simple_fn("add_numbers", Some(TypeRef::Prim(PrimType::Int32)), false, false);
    add_numbers.params.push(param("a", TypeRef::Prim(PrimType::Int32), false));
    add_numbers.params.push(param("b", TypeRef::Prim(PrimType::Int32), false));
    functions.push(add_numbers);

    let mut get_user = simple_fn("get_user", Some(TypeRef::Decl(s("User"))), false, false);
    get_user.params.push(param("user_id", TypeRef::Prim(PrimType::Int32), false));
    functions.push(get_user);

    let mut create_user = simple_fn("create_user", Some(TypeRef::Decl(s("User"))), true, false);
    create_user.params.push(param("user", TypeRef::Decl(s("User")), false));
    functions.push(create_user);

    let mut search_products = simple_fn(
        "search_products",
        Some(TypeRef::SequenceOf(Box::new(TypeRef::Decl(s("Product"))))),
        false,
        false,
    );
    search_products.params.push(param("query", TypeRef::Prim(PrimType::Text), false));
    search_products.params.push(
        param("limit", TypeRef::OptionalOf(Box::new(TypeRef::Prim(PrimType::Int32))), true),
    );
    functions.push(search_products);

    let mut update_order_status = simple_fn(
        "update_order_status",
        Some(TypeRef::Prim(PrimType::Text)),
        true,
        false,
    );
    update_order_status.params.push(param("order_id", TypeRef::Prim(PrimType::Text), false));
    update_order_status.params.push(param("status", TypeRef::Decl(s("OrderStatus")), false));
    functions.push(update_order_status);

    let mut create_order = simple_fn("create_order", Some(TypeRef::Decl(s("Order"))), true, false);
    create_order.params.push(param("order", TypeRef::Decl(s("Order")), false));
    functions.push(create_order);

    let mut update_settings = simple_fn(
        "update_settings",
        Some(TypeRef::Decl(s("Settings"))),
        false,
        false,
    );
    update_settings.params.push(param("settings", TypeRef::Decl(s("Settings")), false));
    functions.push(update_settings);

    let mut process_task = simple_fn("process_task", Some(TypeRef::Prim(PrimType::Text)), true, true);
    process_task.params.push(param("task_id", TypeRef::Prim(PrimType::Text), false));
    process_task.channels.push(
        ChannelDecl { name: s("progress"), elem: TypeRef::Decl(s("ProgressUpdate")) },
    );
    functions.push(process_task);

    let mut stream_logs = simple_fn("stream_logs", None, true, true);
    stream_logs.channels.push(ChannelDecl { name: s("logs"), elem: TypeRef::Decl(s("LogEntry")) });
    functions.push(stream_logs);

    let mut monitor_system = simple_fn("monitor_system", None, true, true);
    monitor_system.channels.push(ChannelDecl { name: s("cpu"), elem: TypeRef::Prim(PrimType::Float64) });
    monitor_system.channels.push(
        ChannelDecl { name: s("memory"), elem: TypeRef::Prim(PrimType::Float64) },
    );
    functions.push(monitor_system);

    let mut divide = simple_fn("divide", Some(TypeRef::Prim(PrimType::Float64)), true, false);
    divide.params.push(param("a", TypeRef::Prim(PrimType::Float64), false));
    divide.params.push(param("b", TypeRef::Prim(PrimType::Float64), false));
    functions.push(divide);

    Model { types, functions }
}

} // verus!
