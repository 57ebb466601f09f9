use typebind::commands::{
    add_numbers, create_user, get_user, greet, update_order_status, update_settings,
};
use typebind::model::{Constraint, Convention, FieldDecl, MatchMode, PrimType, TypeRef};
use typebind::model::Model;
use typebind::models::{OrderStatus, Settings};
use typebind::samples::sample_model;
use typebind::runtime::{check_constraint, check_field, check_struct, check_value, validate_by_name, Value};
use typebind::signatures::CallOutcome;

use std::collections::HashMap;

fn field(name: &str, ty: TypeRef) -> FieldDecl {
    FieldDecl {
        name: name.to_owned(),
        ty,
        optional: false,
        rename: None,
        skip: false,
        constraints: Vec::new(),
    }
}

fn user_id_field() -> FieldDecl {
    let mut f = field("user_id", TypeRef::Prim(PrimType::Int32));
    f.constraints.push(Constraint::Range {
        min: Some(1),
        max: None,
    });
    f
}

#[test]
fn scenario_user_id_rejects_zero_naming_field_and_bound() {
    let f = user_id_field();
    let report = check_field(&f, Convention::Camel, &Value::IntV(0));
    assert_eq!(report.len(), 1);
    assert_eq!(report[0].path, "userId");
    assert!(report[0].message.contains("min"));
}

#[test]
fn scenario_user_id_accepts_one() {
    let f = user_id_field();
    assert!(check_field(&f, Convention::Camel, &Value::IntV(1)).is_empty());
}

#[test]
fn range_max_violation_names_max() {
    let mut f = field("n", TypeRef::Prim(PrimType::Int32));
    f.constraints.push(Constraint::Range {
        min: Some(0),
        max: Some(100),
    });
    let report = check_field(&f, Convention::Camel, &Value::IntV(101));
    assert_eq!(report.len(), 1);
    assert!(report[0].message.contains("max"));
    assert!(check_field(&f, Convention::Camel, &Value::IntV(100)).is_empty());
}

#[test]
fn length_bounds_count_characters() {
    let c = Constraint::Length {
        min: Some(3),
        max: Some(50),
    };
    assert!(check_constraint(&c, &Value::TextV("ab".to_owned())).is_some());
    assert!(check_constraint(&c, &Value::TextV("abc".to_owned())).is_none());
    let msg = check_constraint(&c, &Value::TextV("ab".to_owned())).unwrap();
    assert!(msg.contains("min"));
}

#[test]
fn length_applies_to_sequences_too() {
    let c = Constraint::Length {
        min: Some(1),
        max: None,
    };
    assert!(check_constraint(&c, &Value::ListV(Vec::new())).is_some());
    assert!(check_constraint(&c, &Value::ListV(vec![Value::IntV(1)])).is_none());
}

#[test]
fn email_constraint_follows_the_address_grammar() {
    let c = Constraint::Email;
    assert!(check_constraint(&c, &Value::TextV("john@example.com".to_owned())).is_none());
    let msg = check_constraint(&c, &Value::TextV("not-an-email".to_owned())).unwrap();
    assert!(msg.contains("email"));
    assert!(check_constraint(&c, &Value::TextV("".to_owned())).is_some());
}

#[test]
fn partial_pattern_matches_inside_text() {
    let c = Constraint::Pattern {
        pattern: "\\d+".to_owned(),
        mode: MatchMode::Partial,
    };
    assert!(check_constraint(&c, &Value::TextV("build 42".to_owned())).is_none());
    assert!(check_constraint(&c, &Value::TextV("no digits".to_owned())).is_some());
}

#[test]
fn full_pattern_must_cover_the_whole_text() {
    let c = Constraint::Pattern {
        pattern: "\\d+".to_owned(),
        mode: MatchMode::Full,
    };
    assert!(check_constraint(&c, &Value::TextV("42".to_owned())).is_none());
    assert!(check_constraint(&c, &Value::TextV("build 42".to_owned())).is_some());
}

#[test]
fn version_pattern_round_trip() {
    let c = Constraint::Pattern {
        pattern: "^\\d+\\.\\d+\\.\\d+$".to_owned(),
        mode: MatchMode::Partial,
    };
    assert!(check_constraint(&c, &Value::TextV("1.2.3".to_owned())).is_none());
    assert!(check_constraint(&c, &Value::TextV("1.2".to_owned())).is_some());
}

#[test]
fn broken_pattern_is_reported() {
    let c = Constraint::Pattern {
        pattern: "(".to_owned(),
        mode: MatchMode::Partial,
    };
    let msg = check_constraint(&c, &Value::TextV("anything".to_owned())).unwrap();
    assert!(msg.contains("pattern"));
}

#[test]
fn wrong_shape_is_a_violation() {
    let c = Constraint::Range {
        min: Some(1),
        max: None,
    };
    assert!(check_constraint(&c, &Value::TextV("5".to_owned())).is_some());
}

#[test]
fn struct_check_collects_all_failures() {
    let mut user_name = field("user_name", TypeRef::Prim(PrimType::Text));
    user_name.constraints.push(Constraint::Length {
        min: Some(3),
        max: Some(50),
    });
    let fields = vec![user_id_field(), user_name];
    let entries = vec![
        ("userId".to_owned(), Value::IntV(0)),
        ("userName".to_owned(), Value::TextV("ab".to_owned())),
    ];
    let report = check_struct(&fields, Convention::Camel, &entries);
    assert_eq!(report.len(), 2);
    assert_eq!(report[0].path, "userId");
    assert_eq!(report[1].path, "userName");
}

#[test]
fn missing_required_member_is_reported() {
    let fields = vec![user_id_field()];
    let report = check_struct(&fields, Convention::Camel, &Vec::new());
    assert_eq!(report.len(), 1);
    assert_eq!(report[0].path, "userId");
    assert!(report[0].message.contains("absent"));
}

#[test]
fn missing_optional_member_is_fine() {
    let mut f = user_id_field();
    f.optional = true;
    let report = check_struct(&vec![f], Convention::Camel, &Vec::new());
    assert!(report.is_empty());
}

#[test]
fn skipped_member_is_never_required() {
    let mut f = user_id_field();
    f.skip = true;
    let report = check_struct(&vec![f], Convention::Camel, &Vec::new());
    assert!(report.is_empty());
}

#[test]
fn field_with_no_constraints_accepts_any_value() {
    let f = field("note", TypeRef::Prim(PrimType::Text));
    assert!(check_field(&f, Convention::Camel, &Value::TextV("anything at all".to_owned()))
        .is_empty());
    assert!(check_field(&f, Convention::Camel, &Value::IntV(-7)).is_empty());
}

#[test]
fn outcome_is_exactly_one_arm() {
    let ok: CallOutcome<String> = CallOutcome::Success("done".to_owned());
    let bad: CallOutcome<String> = CallOutcome::Failure("broken".to_owned());
    match ok {
        CallOutcome::Success(v) => assert_eq!(v, "done"),
        CallOutcome::Failure(_) => panic!("a success is not a failure"),
    }
    match bad {
        CallOutcome::Success(_) => panic!("a failure carries no success payload"),
        CallOutcome::Failure(m) => assert_eq!(m, "broken"),
    }
}

#[test]
fn greet_is_canned() {
    assert_eq!(greet(), "Hello from Tauri!");
}

#[test]
fn add_numbers_adds() {
    assert_eq!(add_numbers(2, 3), 5);
    assert_eq!(add_numbers(-2, 2), 0);
}

#[test]
fn get_user_fills_the_sample() {
    let u = get_user(7);
    assert_eq!(u.user_id, 7);
    assert_eq!(u.user_name, "John Doe");
    assert_eq!(u.email, "john@example.com");
    assert!(u.is_active);
}

#[test]
fn create_user_rejects_empty_names() {
    let mut u = get_user(1);
    u.user_name = String::new();
    match create_user(u) {
        Err(m) => assert_eq!(m, "Username cannot be empty"),
        Ok(_) => panic!("an empty name must be rejected"),
    }
    let ok = create_user(get_user(1)).unwrap();
    assert_eq!(ok.user_id, 1);
}

#[test]
fn update_order_status_reports() {
    let r = update_order_status(&"A-17".to_owned(), &OrderStatus::Shipped).unwrap();
    assert_eq!(r, "Order A-17 updated to Shipped");
}

#[test]
fn update_settings_returns_them_unchanged() {
    let mut features = HashMap::new();
    features.insert("dark_mode".to_owned(), true);
    let s = Settings {
        app_name: "demo".to_owned(),
        version: "1.2.3".to_owned(),
        features,
        theme: None,
    };
    let out = update_settings(s);
    assert_eq!(out.app_name, "demo");
    assert_eq!(out.version, "1.2.3");
    assert_eq!(out.features.get("dark_mode"), Some(&true));
    assert!(out.theme.is_none());
}

#[test]
fn validators_are_addressable_by_declaration_name() {
    let m = sample_model();
    let entries = vec![
        ("userId".to_owned(), Value::IntV(0)),
        ("userName".to_owned(), Value::TextV("Jo".to_owned())),
        ("email".to_owned(), Value::TextV("not-an-email".to_owned())),
        ("isActive".to_owned(), Value::BoolV(true)),
    ];
    let report = validate_by_name(&m, &"User".to_owned(), &entries).unwrap();
    assert_eq!(report.len(), 3);
    assert_eq!(report[0].path, "userId");
    assert_eq!(report[1].path, "userName");
    assert_eq!(report[2].path, "email");

    let good = vec![
        ("userId".to_owned(), Value::IntV(1)),
        ("userName".to_owned(), Value::TextV("John".to_owned())),
        ("email".to_owned(), Value::TextV("john@example.com".to_owned())),
        ("isActive".to_owned(), Value::BoolV(true)),
    ];
    assert!(validate_by_name(&m, &"User".to_owned(), &good).unwrap().is_empty());
    assert!(validate_by_name(&m, &"NoSuchType".to_owned(), &good).is_none());
    assert!(validate_by_name(&m, &"OrderStatus".to_owned(), &good).is_none());
}

fn order_value(order_id: &str, user_id: i64, product_ids: &[i64]) -> Value {
    let products: Vec<Value> = product_ids
        .iter()
        .map(|pid| {
            Value::RecordV(vec![
                ("productId".to_owned(), Value::IntV(*pid)),
                ("name".to_owned(), Value::TextV("Widget".to_owned())),
                ("price".to_owned(), Value::IntV(5)),
            ])
        })
        .collect();
    Value::RecordV(vec![
        ("orderId".to_owned(), Value::TextV(order_id.to_owned())),
        (
            "user".to_owned(),
            Value::RecordV(vec![
                ("userId".to_owned(), Value::IntV(user_id)),
                ("userName".to_owned(), Value::TextV("John".to_owned())),
                ("email".to_owned(), Value::TextV("john@example.com".to_owned())),
                ("isActive".to_owned(), Value::BoolV(true)),
            ]),
        ),
        ("products".to_owned(), Value::ListV(products)),
        ("status".to_owned(), Value::TextV("PENDING".to_owned())),
        ("paymentMethod".to_owned(), Value::TextV("paypal".to_owned())),
        ("totalAmount".to_owned(), Value::IntV(10)),
    ])
}

#[test]
fn nested_violations_carry_prefixed_paths() {
    let m = sample_model();
    let t = TypeRef::Decl("Order".to_owned());
    let bad = order_value("", 0, &[0]);
    let report = check_value(&m, &t, &bad);
    let paths: Vec<&str> = report.iter().map(|v| v.path.as_str()).collect();
    assert!(paths.contains(&"orderId"));
    assert!(paths.contains(&"user.userId"));
    assert!(paths.contains(&"products.[0].productId"));
    let good = order_value("A-1", 1, &[1, 2]);
    assert!(check_value(&m, &t, &good).is_empty());
}

#[test]
fn empty_nested_sequence_violates_its_length_bound() {
    let m = sample_model();
    let t = TypeRef::Decl("Order".to_owned());
    let no_products = order_value("A-1", 1, &[]);
    let report = check_value(&m, &t, &no_products);
    assert_eq!(report.len(), 1);
    assert_eq!(report[0].path, "products");
    assert!(report[0].message.contains("min"));
}

#[test]
fn map_members_are_checked_under_their_keys() {
    let mut constrained = FieldDecl {
        name: "scores".to_owned(),
        ty: TypeRef::MapOf(Box::new(TypeRef::Decl("Score".to_owned()))),
        optional: false,
        rename: None,
        skip: false,
        constraints: Vec::new(),
    };
    constrained.rename = Some("scores".to_owned());
    let mut points = FieldDecl {
        name: "points".to_owned(),
        ty: TypeRef::Prim(PrimType::Int32),
        optional: false,
        rename: None,
        skip: false,
        constraints: Vec::new(),
    };
    points.constraints.push(Constraint::Range {
        min: Some(0),
        max: Some(10),
    });
    let score_decl = typebind::model::TypeDecl {
        name: "Score".to_owned(),
        convention: Convention::Camel,
        body: typebind::model::TypeBody::Struct(vec![points]),
    };
    let board_decl = typebind::model::TypeDecl {
        name: "Board".to_owned(),
        convention: Convention::Camel,
        body: typebind::model::TypeBody::Struct(vec![constrained]),
    };
    let m = Model {
        types: vec![score_decl, board_decl],
        functions: Vec::new(),
    };
    let v = Value::RecordV(vec![(
        "scores".to_owned(),
        Value::RecordV(vec![(
            "alice".to_owned(),
            Value::RecordV(vec![("points".to_owned(), Value::IntV(11))]),
        )]),
    )]);
    let report = check_value(&m, &TypeRef::Decl("Board".to_owned()), &v);
    assert_eq!(report.len(), 1);
    assert_eq!(report[0].path, "scores.alice.points");
    assert!(report[0].message.contains("max"));
}

#[test]
fn optional_layers_are_stripped_before_checking() {
    let m = sample_model();
    let t = TypeRef::OptionalOf(Box::new(TypeRef::Decl("User".to_owned())));
    assert!(check_value(&m, &t, &Value::AbsentV).is_empty());
    let bad = Value::RecordV(vec![("userId".to_owned(), Value::IntV(0))]);
    let report = check_value(&m, &t, &bad);
    let paths: Vec<&str> = report.iter().map(|v| v.path.as_str()).collect();
    assert!(paths.contains(&"userId"));
}
