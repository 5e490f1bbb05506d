use problem_details::problem::Problem;
use problem_details::{IntoProblem, APPLICATION_PROBLEM_JSON};

#[test]
fn tests_content_type_constant() {
    assert_eq!(APPLICATION_PROBLEM_JSON, "application/problem+json");
}

#[test]
fn internal_server_error_has_generic_detail() {
    let problem = Problem::internal_server_error();
    assert_eq!(
        problem.detail.as_deref(),
        Some("An internal error occurred")
    );
}

#[test]
fn status_or_default_returns_500() {
    let problem = Problem::new();
    assert_eq!(problem.status_or_default(), 500);
}

#[test]
fn tests_display_implementation() {
    let problem = Problem::not_found()
        .with_title("Not Found")
        .with_detail("User 42");
    assert_eq!(problem.to_string(), "Not Found (404): User 42");
}

enum TestError {
    NotFound,
}

impl IntoProblem for TestError {
    fn to_problem(&self) -> Problem {
        match self {
            TestError::NotFound => Problem::not_found()
                .with_title("Not Found")
                .with_code("NOT_FOUND"),
        }
    }
}

#[test]
fn to_problem_trait() {
    let problem = TestError::NotFound.to_problem();
    assert_eq!(problem.status, Some(404));
    assert_eq!(problem.code(), Some("NOT_FOUND"));
}

#[test]
fn status_constructors_set_only_status() {
    let cases = [
        (Problem::bad_request(), 400),
        (Problem::unauthorized(), 401),
        (Problem::forbidden(), 403),
        (Problem::not_found(), 404),
        (Problem::conflict(), 409),
        (Problem::unprocessable_entity(), 422),
        (Problem::too_many_requests(), 429),
        (Problem::with_status(418), 418),
    ];
    for (problem, status) in cases.iter() {
        assert_eq!(problem.status, Some(*status));
        assert!(problem.title.is_none());
        assert!(problem.detail.is_none());
        assert!(problem.problem_type.is_none());
        assert!(problem.instance.is_none());
        assert!(problem.extensions.is_empty());
        assert!(problem.internal_cause().is_none());
    }
}

#[test]
fn new_and_default_are_empty() {
    for problem in [Problem::new(), Problem::default()] {
        assert!(problem.status.is_none());
        assert!(problem.title.is_none());
        assert!(problem.extensions.is_empty());
        assert_eq!(problem.status_or_default(), 500);
    }
}

#[test]
fn builders_set_standard_members() {
    let problem = Problem::not_found()
        .with_type("https://example.com/not-found")
        .with_title("Not Found")
        .with_detail("Resource 42 does not exist")
        .with_instance("/resources/42");
    assert_eq!(problem.problem_type.as_deref(), Some("https://example.com/not-found"));
    assert_eq!(problem.title.as_deref(), Some("Not Found"));
    assert_eq!(problem.status, Some(404));
    assert_eq!(problem.detail.as_deref(), Some("Resource 42 does not exist"));
    assert_eq!(problem.instance.as_deref(), Some("/resources/42"));
}

#[test]
fn internal_server_error_detail_can_be_replaced() {
    let problem = Problem::internal_server_error().with_detail("Custom safe message");
    assert_eq!(problem.detail.as_deref(), Some("Custom safe message"));
    assert_eq!(problem.status, Some(500));
}

#[test]
fn internal_cause_is_kept_apart() {
    let problem = Problem::internal_server_error()
        .with_internal_cause("database connection failed: timeout after 30s");
    assert_eq!(
        problem.internal_cause(),
        Some("database connection failed: timeout after 30s")
    );
    assert_eq!(problem.detail.as_deref(), Some("An internal error occurred"));
    assert!(problem.extensions.is_empty());
    assert!(!problem.to_string().contains("database"));
}

#[test]
fn display_without_title_status_or_detail() {
    assert_eq!(Problem::new().to_string(), "Problem");
    assert_eq!(Problem::with_status(0).to_string(), "Problem (0)");
    assert_eq!(Problem::with_status(65535).to_string(), "Problem (65535)");
    assert_eq!(Problem::new().with_detail("x").to_string(), "Problem: x");
    assert_eq!(Problem::new().with_title("T").to_string(), "T");
    assert_eq!(
        Problem::internal_server_error().to_string(),
        "Problem (500): An internal error occurred"
    );
}

#[test]
fn clone_keeps_members() {
    let problem = Problem::not_found().with_title("Gone").with_code("GONE");
    let copy = problem.clone();
    assert_eq!(copy.status, Some(404));
    assert_eq!(copy.title.as_deref(), Some("Gone"));
    assert_eq!(copy.code(), Some("GONE"));
}
