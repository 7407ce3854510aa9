use postprocessing::fuzzers::fuzz_lightyear::{
    is_error, is_response_conformance_failure, is_server_error, process_case, process_stdout,
    should_skip,
};
use postprocessing::output::{ErrorKind, FailureKind, SkipKind, TestCase, TestCaseResult};

fn nowhere(result: TestCaseResult) -> TestCase {
    TestCase { method: None, path: None, result }
}

const TRANSCRIPT: &str = "collected 4 items\n\
pets.get_pet [failure] is above the section and is not read\n\
================================ Test Failures ================================\n\
_____ pets.get_pet [failure] _____\n\
bravado.exception.HTTPInternalServerError: 500 INTERNAL SERVER ERROR\n\
_____ pets.add_pet [failure] _____\n\
jsonschema.exceptions.ValidationError: 1 is not of type string\n\
_____ pets.find [failure] _____\n\
bravado.exception.HTTPBadRequest: 400 BAD REQUEST\n\
_____ store.order [failure] _____\n\
bravado_core.exception.SwaggerMappingError: missing\n\
_____ store.other [failure] _____\n\
something that no rule knows\n";

#[test]
fn fuzz_lightyear_one_case_per_category() {
    let cases = process_stdout(TRANSCRIPT).unwrap();
    assert_eq!(
        cases,
        vec![
            nowhere(TestCaseResult::Failure { kind: FailureKind::ServerError { status_code: 500 } }),
            nowhere(TestCaseResult::Failure { kind: FailureKind::ResponseConformance }),
            nowhere(TestCaseResult::Skip {
                kind: SkipKind::NotInteresting,
                reason: "Reports regular 422, 400, 404 as failures".to_string()
            }),
            nowhere(TestCaseResult::Error { kind: ErrorKind::Internal }),
        ]
    );
}

#[test]
fn fuzz_lightyear_without_failures_is_empty() {
    assert_eq!(process_stdout(""), Ok(Vec::new()));
    assert_eq!(
        process_stdout("_____ pets.get_pet [failure] _____\nHTTPInternalServerError\n"),
        Ok(Vec::new())
    );
}

#[test]
fn fuzz_lightyear_rules_in_order() {
    assert_eq!(process_case("nothing"), None);
    assert_eq!(
        process_case("SwaggerMappingError and 404 NOT FOUND and HTTPInternalServerError"),
        Some(nowhere(TestCaseResult::Error { kind: ErrorKind::Internal }))
    );
    assert_eq!(
        process_case("422 UNPROCESSABLE ENTITY jsonschema.exceptions.ValidationError"),
        Some(nowhere(TestCaseResult::Skip {
            kind: SkipKind::NotInteresting,
            reason: "Reports regular 422, 400, 404 as failures".to_string()
        }))
    );
    assert_eq!(
        process_case("jsonschema.exceptions.ValidationError HTTPInternalServerError"),
        Some(nowhere(TestCaseResult::Failure { kind: FailureKind::ResponseConformance }))
    );
}

#[test]
fn fuzz_lightyear_markers() {
    assert!(should_skip("x 404 NOT FOUND y"));
    assert!(should_skip("400 BAD REQUEST"));
    assert!(!should_skip("401 UNAUTHORIZED"));
    assert!(is_error("SwaggerMappingError"));
    assert!(!is_error("swaggermappingerror"));
    assert!(is_response_conformance_failure("a jsonschema.exceptions.ValidationError b"));
    assert!(is_server_error("HTTPInternalServerError"));
    assert!(!is_server_error("HTTPBadGateway"));
}
