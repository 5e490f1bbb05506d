use problem_details::order::name_less;
use problem_details::problem::Problem;
use problem_details::response::FALLBACK_BODY;
use problem_details::text::decimal_string;

#[test]
fn response_status_keeps_valid_codes() {
    assert_eq!(Problem::not_found().response_status(), 404);
    assert_eq!(Problem::forbidden().response_status(), 403);
    assert_eq!(Problem::with_status(100).response_status(), 100);
    assert_eq!(Problem::with_status(999).response_status(), 999);
}

#[test]
fn response_status_replaces_invalid_codes() {
    assert_eq!(Problem::new().response_status(), 500);
    assert_eq!(Problem::with_status(42).response_status(), 500);
    assert_eq!(Problem::with_status(99).response_status(), 500);
    assert_eq!(Problem::with_status(1000).response_status(), 500);
    assert_eq!(Problem::with_status(0).response_status(), 500);
}

#[test]
fn response_body_falls_back() {
    assert_eq!(
        Problem::response_body(Some("{\"status\":404}".to_string())),
        "{\"status\":404}"
    );
    assert_eq!(Problem::response_body(None), FALLBACK_BODY);
    assert_eq!(
        FALLBACK_BODY,
        r#"{"type":"about:blank","title":"Internal Server Error","status":500}"#
    );
}

#[test]
fn decimal_string_matches_to_string() {
    for n in [0u16, 7, 10, 42, 100, 404, 999, 1000, 65535] {
        assert_eq!(decimal_string(n), n.to_string());
    }
}

#[test]
fn name_order_is_string_order() {
    assert!(name_less("a", "b"));
    assert!(!name_less("b", "a"));
    assert!(!name_less("a", "a"));
    assert!(name_less("", "a"));
    assert!(name_less("ab", "abc"));
    assert!(name_less("Z", "a"));
    assert!(name_less("z", "\u{e9}"));
}
