use postprocessing::output::{ErrorKind, FailureKind, SkipKind, TestCase, TestCaseResult};

fn endpoint() -> (String, String) {
    ("GET".to_string(), "/users".to_string())
}

#[test]
fn new_keeps_its_parts() {
    let case = TestCase::new(None, Some("/x".to_string()), TestCaseResult::Pass);
    assert_eq!(case.method, None);
    assert_eq!(case.path.as_deref(), Some("/x"));
    assert_eq!(case.result, TestCaseResult::Pass);
}

#[test]
fn pass_has_an_endpoint() {
    let (method, path) = endpoint();
    let case = TestCase::pass(method, path);
    assert_eq!(
        case,
        TestCase {
            method: Some("GET".to_string()),
            path: Some("/users".to_string()),
            result: TestCaseResult::Pass
        }
    );
}

#[test]
fn skip_carries_kind_and_reason() {
    let (method, path) = endpoint();
    let case = TestCase::skip(method, path, SkipKind::CanNotTest, "Missing auth".to_string());
    assert_eq!(
        case.result,
        TestCaseResult::Skip { kind: SkipKind::CanNotTest, reason: "Missing auth".to_string() }
    );
    assert_eq!(case.method.as_deref(), Some("GET"));
    assert_eq!(case.path.as_deref(), Some("/users"));
}

#[test]
fn recommendation_carries_its_kind() {
    let (method, path) = endpoint();
    let case = TestCase::recommendation(method, path, "HappyFuzzer".to_string());
    assert_eq!(case.result, TestCaseResult::Recommendation { kind: "HappyFuzzer".to_string() });
}

#[test]
fn error_may_lack_an_endpoint() {
    let case = TestCase::error(None, None, ErrorKind::Flaky);
    assert_eq!(
        case,
        TestCase { method: None, path: None, result: TestCaseResult::Error { kind: ErrorKind::Flaky } }
    );
    let case = TestCase::error(Some("GET".to_string()), Some("/a".to_string()), ErrorKind::Schema);
    assert_eq!(case.method.as_deref(), Some("GET"));
    assert_eq!(case.result, TestCaseResult::Error { kind: ErrorKind::Schema });
}

#[test]
fn failures_carry_their_kind() {
    let make = |build: fn(String, String) -> TestCase| {
        let (method, path) = endpoint();
        build(method, path).result
    };
    assert_eq!(
        make(TestCase::response_conformance),
        TestCaseResult::Failure { kind: FailureKind::ResponseConformance }
    );
    assert_eq!(
        make(TestCase::content_type_conformance),
        TestCaseResult::Failure { kind: FailureKind::ContentTypeConformance }
    );
    assert_eq!(
        make(TestCase::malformed_media_type),
        TestCaseResult::Failure { kind: FailureKind::MalformedMediaType }
    );
    assert_eq!(
        make(TestCase::missing_content_type),
        TestCaseResult::Failure { kind: FailureKind::MissingContentType }
    );
    assert_eq!(
        make(TestCase::response_headers_conformance),
        TestCaseResult::Failure { kind: FailureKind::ResponseHeadersConformance }
    );
    assert_eq!(
        make(TestCase::request_timeout),
        TestCaseResult::Failure { kind: FailureKind::RequestTimeout }
    );
}

#[test]
fn status_codes_are_kept() {
    let (method, path) = endpoint();
    assert_eq!(
        TestCase::server_error(method, path, 503).result,
        TestCaseResult::Failure { kind: FailureKind::ServerError { status_code: 503 } }
    );
    let (method, path) = endpoint();
    assert_eq!(
        TestCase::unexpected_status_code(method, path, 418).result,
        TestCaseResult::Failure { kind: FailureKind::UnexpectedStatusCode { status_code: 418 } }
    );
}
