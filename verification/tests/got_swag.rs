use postprocessing::error::ProcessingError;
use postprocessing::fuzzers::got_swag::{
    classify, is_error, is_response_conformance_failure, process_stdout,
};
use postprocessing::output::{ErrorKind, FailureKind, SkipKind, TestCase, TestCaseResult};
use postprocessing::pattern::Group;

fn entry(number: usize, operation: &str, body: &str) -> String {
    format!(
        "  {}) Got Swag? http://0.0.0.0:8080/openapi.json: {} Monkey Test:\n     {}\n\n",
        number, operation, body
    )
}

fn at(method: &str, path: &str, result: TestCaseResult) -> TestCase {
    TestCase { method: Some(method.to_string()), path: Some(path.to_string()), result }
}

#[test]
fn got_swag_one_case_per_category() {
    let content = [
        "  12 passing (3s)\n  9 failing\n\n".to_string(),
        entry(1, "GET /pets", "Error: Unexpected response status 404"),
        entry(2, "POST /pets", "Error: Unexpected response status 503"),
        entry(3, "PUT /pets/{id}", "Error: Status 502 detected"),
        entry(4, "GET /a", "Error: done() invoked with non-Error: Could not authenticate"),
        entry(5, "GET /b", "Error: Could not GET /b"),
        entry(6, "GET /c", "Error: Invalid data"),
        entry(7, "DELETE /d", "Error: Body should be empty"),
        entry(8, "PATCH /e", "Error: write EPROTO 1234"),
        entry(9, "GET /f", "Error: data.id is not of a type(s) string"),
    ]
    .concat();
    let cases = process_stdout(&content).unwrap();
    assert_eq!(
        cases,
        vec![
            at(
                "GET",
                "/pets",
                TestCaseResult::Failure { kind: FailureKind::UnexpectedStatusCode { status_code: 404 } }
            ),
            at(
                "POST",
                "/pets",
                TestCaseResult::Failure { kind: FailureKind::ServerError { status_code: 503 } }
            ),
            at(
                "PUT",
                "/pets/{id}",
                TestCaseResult::Failure { kind: FailureKind::ServerError { status_code: 502 } }
            ),
            at(
                "GET",
                "/a",
                TestCaseResult::Skip { kind: SkipKind::CanNotTest, reason: "Missing auth".to_string() }
            ),
            at(
                "GET",
                "/b",
                TestCaseResult::Skip {
                    kind: SkipKind::CanNotTest,
                    reason: "Can not make a GET request".to_string()
                }
            ),
            at(
                "GET",
                "/c",
                TestCaseResult::Skip {
                    kind: SkipKind::InvalidAssumption,
                    reason: "Concludes failure if data is not object or falsy".to_string()
                }
            ),
            at(
                "DELETE",
                "/d",
                TestCaseResult::Skip {
                    kind: SkipKind::InvalidAssumption,
                    reason: "Expects empty body if schema is an empty object".to_string()
                }
            ),
            at("PATCH", "/e", TestCaseResult::Error { kind: ErrorKind::Internal }),
            at("GET", "/f", TestCaseResult::Failure { kind: FailureKind::ResponseConformance }),
        ]
    );
}

#[test]
fn got_swag_without_entries_is_empty() {
    assert_eq!(process_stdout(""), Ok(Vec::new()));
    assert_eq!(process_stdout("  12 passing (3s)\n"), Ok(Vec::new()));
}

#[test]
fn got_swag_unknown_entry_is_unclassified() {
    let content = entry(1, "GET /pets", "Error: something new");
    assert_eq!(process_stdout(&content), Err(ProcessingError::Unclassified));
}

#[test]
fn got_swag_entry_without_operation_is_malformed() {
    let content = "1) Got Swag? http://0.0.0.0:8080/api: Error: Status 500 detected";
    assert_eq!(process_stdout(content), Err(ProcessingError::Malformed));
}

#[test]
fn got_swag_markers() {
    assert!(is_error("Error: write EPROTO"));
    assert!(!is_error("EPROTO"));
    assert!(is_response_conformance_failure("x does not conform to the schema"));
    assert!(is_response_conformance_failure("is not of a type(s) integer"));
    assert!(!is_response_conformance_failure("is not of a type integer"));
}

fn group(text: &str) -> Option<Group> {
    Some(Group { start: 0, end: text.len(), text: text.to_string() })
}

#[test]
fn got_swag_classify_on_given_captures() {
    let operation = Some(vec![group("GET /x Monkey Test"), group("GET"), group("/x")]);
    let status = |digits: &str| Some(vec![group("whole"), group(digits)]);
    assert_eq!(
        classify("plain", &operation, &status("418"), &status("500")),
        Ok(at(
            "GET",
            "/x",
            TestCaseResult::Failure { kind: FailureKind::UnexpectedStatusCode { status_code: 418 } }
        ))
    );
    assert_eq!(
        classify("plain", &operation, &None, &status("500")),
        Ok(at("GET", "/x", TestCaseResult::Failure { kind: FailureKind::ServerError { status_code: 500 } }))
    );
    assert_eq!(
        classify("write EPROTO, Invalid data", &operation, &status("418"), &None),
        Ok(at("GET", "/x", TestCaseResult::Error { kind: ErrorKind::Internal }))
    );
    assert_eq!(classify("plain", &operation, &status("12"), &None), Err(ProcessingError::Malformed));
    assert_eq!(classify("plain", &operation, &None, &None), Err(ProcessingError::Unclassified));
    assert_eq!(classify("plain", &None, &None, &status("500")), Err(ProcessingError::Malformed));
}
