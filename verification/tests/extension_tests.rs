use problem_details::extensions::ExtensionValue;
use problem_details::problem::Problem;
use problem_details::ValidationItem;

#[test]
fn code_is_placed_in_extensions() {
    let problem = Problem::bad_request().with_code("INVALID_INPUT");
    assert_eq!(problem.code(), Some("INVALID_INPUT"));
    match problem.extensions.get("code") {
        Some(ExtensionValue::Text(s)) => assert_eq!(s, "INVALID_INPUT"),
        _ => panic!("code should be a string member"),
    }
}

#[test]
fn trace_id_extension() {
    let problem = Problem::bad_request().with_trace_id("abc-123");
    assert_eq!(problem.trace_id(), Some("abc-123"));
    assert!(problem.code().is_none());
}

#[test]
fn request_id_extension() {
    let problem = Problem::bad_request().with_request_id("req-456");
    match problem.extensions.get("request_id") {
        Some(ExtensionValue::Text(s)) => assert_eq!(s, "req-456"),
        _ => panic!("request_id should be a string member"),
    }
    assert!(problem.trace_id().is_none());
}

#[test]
fn later_value_replaces_earlier() {
    let problem = Problem::bad_request()
        .with_code("FIRST")
        .with_trace_id("t")
        .with_code("SECOND");
    assert_eq!(problem.code(), Some("SECOND"));
    assert_eq!(problem.trace_id(), Some("t"));
    assert_eq!(problem.extensions.len(), 2);
}

#[test]
fn validation_errors_are_kept_in_order() {
    let errors = vec![
        ValidationItem::new("email", "must be a valid email").code("INVALID_EMAIL"),
        ValidationItem::new("name", "is required"),
    ];
    let problem = Problem::unprocessable_entity()
        .with_title("Validation Failed")
        .with_errors(errors);
    assert_eq!(problem.status, Some(422));
    match problem.extensions.get("errors") {
        Some(ExtensionValue::Errors(items)) => {
            assert_eq!(items.len(), 2);
            assert_eq!(items[0].field, "email");
            assert_eq!(items[0].message, "must be a valid email");
            assert_eq!(items[0].code.as_deref(), Some("INVALID_EMAIL"));
            assert_eq!(items[1].field, "name");
            assert!(items[1].code.is_none());
        }
        _ => panic!("errors should be a list of validation items"),
    }
    assert!(problem.code().is_none());
}

#[test]
fn errors_replace_earlier_errors() {
    let problem = Problem::unprocessable_entity()
        .with_errors(vec![ValidationItem::new("x", "old")])
        .with_errors(vec![
            ValidationItem::new("a", "msg_a").code("CODE_A"),
            ValidationItem::new("b", "msg_b"),
        ]);
    match problem.extensions.get("errors") {
        Some(ExtensionValue::Errors(items)) => {
            assert_eq!(items.len(), 2);
            assert_eq!(items[0].code.as_deref(), Some("CODE_A"));
        }
        _ => panic!("errors should be a list of validation items"),
    }
    assert_eq!(problem.extensions.len(), 1);
}

#[test]
fn json_string_extension_is_text() {
    let problem = Problem::bad_request()
        .with_extension("custom_key", serde_json::Value::String("custom_value".to_string()))
        .with_extension("code", serde_json::Value::String("FROM_JSON".to_string()));
    match problem.extensions.get("custom_key") {
        Some(ExtensionValue::Text(s)) => assert_eq!(s, "custom_value"),
        _ => panic!("a JSON string should be kept as text"),
    }
    assert_eq!(problem.code(), Some("FROM_JSON"));
}

#[test]
fn json_number_extension_is_kept() {
    let problem = Problem::bad_request().with_extension("count", serde_json::Value::from(42));
    match problem.extensions.get("count") {
        Some(ExtensionValue::Json(v)) => assert_eq!(v, &serde_json::Value::from(42)),
        _ => panic!("a JSON number should be kept as JSON"),
    }
    let problem = problem.with_extension("code", serde_json::Value::from(7));
    assert!(problem.code().is_none());
}

#[test]
fn missing_member_reads_none() {
    let problem = Problem::not_found();
    assert!(problem.extensions.get("code").is_none());
    assert!(problem.code().is_none());
    assert!(problem.trace_id().is_none());
    assert_eq!(problem.extensions.entries().len(), 0);
}

#[test]
fn validation_item_builder() {
    let item = ValidationItem::new("email", "must be a valid email address").code("INVALID_EMAIL");
    assert_eq!(item.field, "email");
    assert_eq!(item.message, "must be a valid email address");
    assert_eq!(item.code.as_deref(), Some("INVALID_EMAIL"));
    let plain = ValidationItem::new("name", "is required");
    assert!(plain.code.is_none());
    assert_ne!(item, plain);
}

#[test]
fn from_split_keeps_text_and_json() {
    match ExtensionValue::from_split(Ok("abc".to_string())) {
        ExtensionValue::Text(s) => assert_eq!(s, "abc"),
        _ => panic!("text should stay text"),
    }
    match ExtensionValue::from_split(Err(serde_json::Value::Bool(true))) {
        ExtensionValue::Json(v) => assert_eq!(v, serde_json::Value::Bool(true)),
        _ => panic!("other JSON should stay JSON"),
    }
}

#[test]
fn json_string_extension_equals_code_builder() {
    let a = Problem::bad_request().with_code("C");
    let b = Problem::bad_request().with_extension("code", serde_json::Value::String("C".to_string()));
    assert_eq!(a.code(), b.code());
    match b.extensions.get("code") {
        Some(ExtensionValue::Text(s)) => assert_eq!(s, "C"),
        _ => panic!("a JSON string should be kept as text"),
    }
}

#[test]
fn non_string_trace_id_reads_none() {
    let problem = Problem::new().with_extension("trace_id", serde_json::Value::from(7));
    assert!(problem.trace_id().is_none());
}

#[test]
fn json_string_kept_as_json_still_reads_as_text() {
    let value = ExtensionValue::from_split(Err(serde_json::Value::String("kept".to_string())));
    assert_eq!(value.as_text(), Some("kept"));
    let problem = Problem::new().with_extension_value("code", value);
    assert_eq!(problem.code(), Some("kept"));
    assert!(ExtensionValue::from_split(Err(serde_json::Value::Null)).as_text().is_none());
}

#[test]
fn extensions_clone_keeps_members() {
    let problem = Problem::unprocessable_entity()
        .with_code("X")
        .with_errors(vec![ValidationItem::new("a", "b").code("c")])
        .with_extension("n", serde_json::Value::from(3));
    let copy = problem.extensions.clone();
    assert_eq!(copy.len(), 3);
    match copy.get("errors") {
        Some(ExtensionValue::Errors(items)) => {
            assert_eq!(items[0], ValidationItem::new("a", "b").code("c"));
        }
        _ => panic!("errors should be copied"),
    }
    match copy.get("n") {
        Some(ExtensionValue::Json(v)) => assert_eq!(v, &serde_json::Value::from(3)),
        _ => panic!("JSON should be copied"),
    }
    assert_eq!(copy.get("code").and_then(|v| v.as_text()), Some("X"));
}

#[test]
fn public_members_leave_out_internal_cause() {
    let problem = Problem::not_found()
        .with_title("T")
        .with_internal_cause("hidden")
        .with_code("K");
    let public = problem.public_members();
    assert_eq!(public.status, Some(404));
    assert_eq!(public.title, Some("T"));
    assert!(public.detail.is_none());
    assert_eq!(public.extensions.len(), 1);
    assert_eq!(problem.internal_cause(), Some("hidden"));
}

#[test]
fn entries_come_in_name_order() {
    let problem = Problem::bad_request()
        .with_trace_id("t")
        .with_code("c")
        .with_request_id("r")
        .with_extension("zeta", serde_json::Value::from(1))
        .with_extension("\u{e9}t\u{e9}", serde_json::Value::from(2))
        .with_extension("Z", serde_json::Value::from(3))
        .with_code("c2");
    let names: Vec<&str> = problem.extensions.entries().iter().map(|(k, _)| k.as_str()).collect();
    let mut sorted = names.clone();
    sorted.sort();
    assert_eq!(names, sorted);
    assert_eq!(names, vec!["Z", "code", "request_id", "trace_id", "zeta", "\u{e9}t\u{e9}"]);
    assert_eq!(problem.code(), Some("c2"));
}
