use typebind::analyze::{check_model, constraint_warnings, GenError};
use typebind::generate::generate;
use typebind::model::{
    Constraint, Convention, FieldDecl, FunctionDecl, MatchMode, Model, ParamDecl, PrimType,
    TypeBody, TypeDecl, TypeRef, VariantDecl,
};
use typebind::names::external_name;
use typebind::samples::sample_model;

fn field(name: &str, ty: TypeRef) -> FieldDecl {
    FieldDecl {
        name: name.to_owned(),
        ty,
        optional: false,
        rename: None,
        skip: false,
        constraints: Vec::new(),
    }
}

fn unit_variant(name: &str) -> VariantDecl {
    VariantDecl {
        name: name.to_owned(),
        rename: None,
        payload: None,
    }
}

fn struct_decl(name: &str, convention: Convention, fields: Vec<FieldDecl>) -> TypeDecl {
    TypeDecl {
        name: name.to_owned(),
        convention,
        body: TypeBody::Struct(fields),
    }
}

fn enum_decl(name: &str, convention: Convention, variants: Vec<VariantDecl>) -> TypeDecl {
    TypeDecl {
        name: name.to_owned(),
        convention,
        body: TypeBody::Enum(variants),
    }
}

fn types_only(types: Vec<TypeDecl>) -> Model {
    Model {
        types,
        functions: Vec::new(),
    }
}

#[test]
fn camel_case_names() {
    assert_eq!(external_name(&"user_id".to_owned(), &None, Convention::Camel), "userId");
    assert_eq!(external_name(&"is_active".to_owned(), &None, Convention::Camel), "isActive");
    assert_eq!(
        external_name(&"payment_method_kind".to_owned(), &None, Convention::Camel),
        "paymentMethodKind"
    );
    assert_eq!(external_name(&"name".to_owned(), &None, Convention::Camel), "name");
    assert_eq!(external_name(&"".to_owned(), &None, Convention::Camel), "");
}

#[test]
fn screaming_snake_names() {
    assert_eq!(
        external_name(&"Pending".to_owned(), &None, Convention::ScreamingSnake),
        "PENDING"
    );
    assert_eq!(
        external_name(&"task_id".to_owned(), &None, Convention::ScreamingSnake),
        "TASK_ID"
    );
}

#[test]
fn as_declared_is_identity() {
    assert_eq!(
        external_name(&"order_id".to_owned(), &None, Convention::AsDeclared),
        "order_id"
    );
}

#[test]
fn rename_override_wins_over_convention() {
    assert_eq!(
        external_name(&"id".to_owned(), &Some("productId".to_owned()), Convention::Camel),
        "productId"
    );
    assert_eq!(
        external_name(
            &"CreditCard".to_owned(),
            &Some("credit_card".to_owned()),
            Convention::ScreamingSnake
        ),
        "credit_card"
    );
}

#[test]
fn generator_is_deterministic() {
    let first = generate(&sample_model()).unwrap();
    let second = generate(&sample_model()).unwrap();
    assert_eq!(first, second);
    assert!(!first.is_empty());
}

#[test]
fn skipped_field_never_appears() {
    let out = generate(&sample_model()).unwrap();
    assert!(!out.contains("internalField"));
    assert!(!out.contains("internal_field"));
    assert!(out.contains("userId"));
}

#[test]
fn struct_schema_shape() {
    let out = generate(&sample_model()).unwrap();
    assert!(out.contains(
        "record User {\n  userId: int32;\n  userName: string;\n  email: string;\n  isActive: bool;\n}\n"
    ));
    assert!(out.contains("record Settings {"));
    assert!(out.contains("  features: map<string, bool>;\n"));
    assert!(out.contains("  theme?: optional<string>;\n"));
    assert!(out.contains("  products: list<Product>;\n"));
}

#[test]
fn unit_enum_emits_screaming_tags() {
    let m = types_only(vec![enum_decl(
        "OrderStatus",
        Convention::ScreamingSnake,
        vec![
            unit_variant("Pending"),
            unit_variant("Processing"),
            unit_variant("Shipped"),
            unit_variant("Delivered"),
            unit_variant("Cancelled"),
        ],
    )]);
    let out = generate(&m).unwrap();
    assert_eq!(
        out,
        "union OrderStatus = \"PENDING\" | \"PROCESSING\" | \"SHIPPED\" | \"DELIVERED\" | \"CANCELLED\";\n"
    );
}

#[test]
fn variant_overrides_are_verbatim() {
    let mut credit = unit_variant("CreditCard");
    credit.rename = Some("credit_card".to_owned());
    let mut paypal = unit_variant("PayPal");
    paypal.rename = Some("paypal".to_owned());
    let mut bank = unit_variant("BankTransfer");
    bank.rename = Some("bank_transfer".to_owned());
    let m = types_only(vec![enum_decl(
        "PaymentMethod",
        Convention::ScreamingSnake,
        vec![credit, paypal, bank],
    )]);
    let out = generate(&m).unwrap();
    assert_eq!(
        out,
        "union PaymentMethod = \"credit_card\" | \"paypal\" | \"bank_transfer\";\n"
    );
}

#[test]
fn payload_enum_is_a_tagged_union() {
    let mut ok = unit_variant("Good");
    ok.payload = Some(TypeRef::Prim(PrimType::Text));
    let m = types_only(vec![enum_decl(
        "Outcome",
        Convention::ScreamingSnake,
        vec![ok, unit_variant("Bad")],
    )]);
    let out = generate(&m).unwrap();
    assert_eq!(
        out,
        "tagged union Outcome {\n  case \"GOOD\": string;\n  case \"BAD\";\n}\n"
    );
}

#[test]
fn tag_collision_is_fatal() {
    let mut a = unit_variant("CreditCard");
    a.rename = Some("dup".to_owned());
    let mut b = unit_variant("PayPal");
    b.rename = Some("dup".to_owned());
    let m = types_only(vec![enum_decl("P", Convention::AsDeclared, vec![a, b])]);
    match generate(&m) {
        Err(GenError::TagCollision { decl, tag }) => {
            assert_eq!(decl, "P");
            assert_eq!(tag, "dup");
        }
        other => panic!("expected a tag collision, got {:?}", other),
    }
}

#[test]
fn field_name_collision_is_fatal() {
    let mut a = field("user_id", TypeRef::Prim(PrimType::Int32));
    a.rename = Some("x".to_owned());
    let mut b = field("user_name", TypeRef::Prim(PrimType::Text));
    b.rename = Some("x".to_owned());
    let m = types_only(vec![struct_decl("S", Convention::Camel, vec![a, b])]);
    match generate(&m) {
        Err(GenError::TagCollision { decl, tag }) => {
            assert_eq!(decl, "S");
            assert_eq!(tag, "x");
        }
        other => panic!("expected a tag collision, got {:?}", other),
    }
}

#[test]
fn skipped_fields_do_not_collide() {
    let mut a = field("user_id", TypeRef::Prim(PrimType::Int32));
    a.rename = Some("x".to_owned());
    let mut b = field("user_name", TypeRef::Prim(PrimType::Text));
    b.rename = Some("x".to_owned());
    b.skip = true;
    let m = types_only(vec![struct_decl("S", Convention::Camel, vec![a, b])]);
    assert!(generate(&m).is_ok());
}

#[test]
fn unresolved_reference_is_fatal() {
    let f = field("user", TypeRef::Decl("Missing".to_owned()));
    let m = types_only(vec![struct_decl("S", Convention::Camel, vec![f])]);
    match generate(&m) {
        Err(GenError::UnresolvedType { decl, reference }) => {
            assert_eq!(decl, "S");
            assert_eq!(reference, "Missing");
            let msg = GenError::UnresolvedType { decl, reference }.message();
            assert!(msg.contains("S"));
            assert!(msg.contains("Missing"));
        }
        other => panic!("expected an unresolved reference, got {:?}", other),
    }
}

#[test]
fn unresolved_reference_in_function_is_fatal() {
    let mut m = types_only(vec![]);
    m.functions.push(FunctionDecl {
        name: "get_thing".to_owned(),
        params: vec![ParamDecl {
            name: "q".to_owned(),
            ty: TypeRef::Decl("Thing".to_owned()),
            optional: false,
        }],
        ret: None,
        fallible: false,
        channels: Vec::new(),
        asynchronous: false,
    });
    assert!(matches!(
        generate(&m),
        Err(GenError::UnresolvedType { .. })
    ));
}

#[test]
fn nested_references_are_resolved() {
    let f = field(
        "items",
        TypeRef::SequenceOf(Box::new(TypeRef::MapOf(Box::new(TypeRef::Decl(
            "Missing".to_owned(),
        ))))),
    );
    let m = types_only(vec![struct_decl("S", Convention::Camel, vec![f])]);
    assert!(matches!(generate(&m), Err(GenError::UnresolvedType { .. })));
}

#[test]
fn sample_model_checks_out() {
    assert!(check_model(&sample_model()).is_ok());
}

#[test]
fn validator_lines_render_bounds() {
    let out = generate(&sample_model()).unwrap();
    assert!(out.contains("check User.userId: range(min=1);\n"));
    assert!(out.contains("check User.userName: length(min=3, max=50);\n"));
    assert!(out.contains("check User.email: email;\n"));
    assert!(out.contains("check Settings.version: pattern(partial, /^\\d+\\.\\d+\\.\\d+$/);\n"));
    assert!(out.contains("check LogEntry.message: length(min=1, max=500);\n"));
}

#[test]
fn negative_bounds_render_with_sign() {
    let mut f = field("delta", TypeRef::Prim(PrimType::Int64));
    f.constraints.push(Constraint::Range {
        min: Some(-5),
        max: Some(10),
    });
    let m = types_only(vec![struct_decl("D", Convention::Camel, vec![f])]);
    let out = generate(&m).unwrap();
    assert!(out.contains("check D.delta: range(min=-5, max=10);\n"));
}

#[test]
fn several_constraints_are_joined_with_and() {
    let mut f = field("code", TypeRef::Prim(PrimType::Text));
    f.constraints.push(Constraint::Length {
        min: Some(2),
        max: None,
    });
    f.constraints.push(Constraint::Pattern {
        pattern: "[a-z]+".to_owned(),
        mode: MatchMode::Full,
    });
    let m = types_only(vec![struct_decl("C", Convention::Camel, vec![f])]);
    let out = generate(&m).unwrap();
    assert!(out.contains("check C.code: length(min=2) and pattern(full, /[a-z]+/);\n"));
}

#[test]
fn function_signatures_render() {
    let out = generate(&sample_model()).unwrap();
    assert!(out.contains("function greet(): string;\n"));
    assert!(out.contains("function add_numbers(a: int32, b: int32): int32;\n"));
    assert!(out.contains("function search_products(query: string, limit?: optional<int32>): list<Product>;\n"));
    assert!(out.contains("function update_settings(settings: Settings): Settings;\n"));
}

#[test]
fn fallible_function_emits_two_armed_result() {
    let out = generate(&sample_model()).unwrap();
    assert!(out.contains("function create_user(user: User): result<User, string>;\n"));
    assert!(out.contains("async function process_task(task_id: string): result<string, string> subscribe progress: ProgressUpdate;\n"));
}

#[test]
fn two_channels_emit_two_subscriptions() {
    let out = generate(&sample_model()).unwrap();
    assert!(out.contains(
        "async function monitor_system(): result<unit, string> subscribe cpu: float64 subscribe memory: float64;\n"
    ));
    assert!(out.contains(
        "async function stream_logs(): result<unit, string> subscribe logs: LogEntry;\n"
    ));
}

#[test]
fn inconsistent_bounds_warn_but_still_emit() {
    let mut f = field("n", TypeRef::Prim(PrimType::Int32));
    f.constraints.push(Constraint::Range {
        min: Some(5),
        max: Some(2),
    });
    let m = types_only(vec![struct_decl("W", Convention::Camel, vec![f])]);
    let warnings = constraint_warnings(&m);
    assert_eq!(warnings.len(), 1);
    assert_eq!(warnings[0].decl, "W");
    assert_eq!(warnings[0].field, "n");
    let out = generate(&m).unwrap();
    assert!(out.contains("check W.n: range(min=5, max=2);\n"));
}

#[test]
fn consistent_model_has_no_warnings() {
    assert!(constraint_warnings(&sample_model()).is_empty());
}
