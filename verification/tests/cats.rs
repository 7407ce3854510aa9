use postprocessing::error::{Fault, ProcessingError};
use postprocessing::fuzzers::cats::{
    classify, is_ignored_fuzzer, is_not_universal, is_recommendation, process_file, process_files,
};
use postprocessing::json::read;
use postprocessing::output::{ErrorKind, FailureKind, SkipKind, TestCase, TestCaseResult};

fn report(fuzzer: &str, details: &str, code: u64) -> String {
    format!(
        "var record = {{\"fuzzer\": \"{}\", \"resultDetails\": \"{}\", \"path\": \"/pets/{{id}}\", \"response\": {{\"httpMethod\": \"POST\", \"responseCode\": {}}}}}",
        fuzzer, details, code
    )
}

fn at(result: TestCaseResult) -> TestCase {
    TestCase { method: Some("POST".to_string()), path: Some("/pets/{id}".to_string()), result }
}

const MATCHES: &str = "Call returned as expected. Response code 200 matches the contract. Response body matches the contract!";

#[test]
fn cats_passed_case() {
    assert_eq!(process_file(&report("CustomFuzzer", MATCHES, 200)), Ok(at(TestCaseResult::Pass)));
    assert_eq!(
        process_file(&report("CustomFuzzer", "Request failed as expected for http method POST", 405)),
        Ok(at(TestCaseResult::Pass))
    );
}

#[test]
fn cats_server_error() {
    assert_eq!(
        process_file(&report("CustomFuzzer", MATCHES, 502)),
        Ok(at(TestCaseResult::Failure { kind: FailureKind::ServerError { status_code: 502 } }))
    );
}

#[test]
fn cats_undocumented_status_code() {
    assert_eq!(
        process_file(&report(
            "CustomFuzzer",
            "Call returned as expected, but with undocumented code: expected [200], actual 404",
            404
        )),
        Ok(at(TestCaseResult::Failure {
            kind: FailureKind::UnexpectedStatusCode { status_code: 404 }
        }))
    );
}

#[test]
fn cats_body_mismatch() {
    assert_eq!(
        process_file(&report("CustomFuzzer", "Response body does NOT match the contract!", 200)),
        Ok(at(TestCaseResult::Failure { kind: FailureKind::ResponseConformance }))
    );
}

#[test]
fn cats_failed_check_is_an_internal_error() {
    let content = "x = {\"fuzzer\": \"HappyFuzzer\", \"resultDetails\": \"Fuzzer [HappyFuzzer] failed due to timeout\"}";
    assert_eq!(
        process_file(content),
        Ok(TestCase { method: None, path: None, result: TestCaseResult::Error { kind: ErrorKind::Internal } })
    );
}

#[test]
fn cats_suppressed_checks_are_never_judged() {
    for code in [200, 404, 500] {
        for details in [MATCHES, "Response body does NOT match the contract!"] {
            assert_eq!(
                process_file(&report("NamingsContractInfoFuzzer", details, code)),
                Ok(at(TestCaseResult::Recommendation { kind: "NamingsContractInfoFuzzer".to_string() }))
            );
            assert_eq!(
                process_file(&report("HttpMethodsFuzzer", details, code)),
                Ok(at(TestCaseResult::Skip {
                    kind: SkipKind::NotInteresting,
                    reason: "HttpMethodsFuzzer".to_string()
                }))
            );
            assert_eq!(
                process_file(&report("HappyFuzzer", details, code)),
                Ok(at(TestCaseResult::Skip {
                    kind: SkipKind::InvalidAssumption,
                    reason: "HappyFuzzer".to_string()
                }))
            );
        }
    }
}

#[test]
fn cats_suppression_tables() {
    assert!(is_recommendation("UnsupportedTypeHeadersFuzzer"));
    assert!(!is_recommendation("UnsupportedTypeHeadersFuzzer2"));
    assert!(!is_recommendation("HappyFuzzer"));
    assert!(is_not_universal("ExtremeNegativeValueDecimalFieldsFuzzer"));
    assert!(is_not_universal("LeadingSpacesInFieldsTrimValidateFuzzer"));
    assert!(!is_not_universal("NamingsContractInfoFuzzer"));
    assert!(is_ignored_fuzzer("HttpMethodsFuzzer"));
    assert!(is_ignored_fuzzer("CustomHttpMethodsFuzzerV2"));
    assert!(!is_ignored_fuzzer("HttpMethods"));
}

#[test]
fn cats_failures_come_before_a_pass() {
    let both = format!("Response body does NOT match the contract! {}", MATCHES);
    assert_eq!(
        process_file(&report("CustomFuzzer", &both, 200)),
        Ok(at(TestCaseResult::Failure { kind: FailureKind::ResponseConformance }))
    );
    let undocumented = "Call returned as expected, but with undocumented code. Request failed as expected for http method";
    assert_eq!(
        process_file(&report("CustomFuzzer", undocumented, 409)),
        Ok(at(TestCaseResult::Failure {
            kind: FailureKind::UnexpectedStatusCode { status_code: 409 }
        }))
    );
}

#[test]
fn cats_same_report_same_case() {
    let content = report("CustomFuzzer", MATCHES, 500);
    assert_eq!(process_file(&content), process_file(&content));
}

#[test]
fn cats_unknown_details_are_unclassified() {
    assert_eq!(
        process_file(&report("CustomFuzzer", "something new", 200)),
        Err(ProcessingError::Unclassified)
    );
}

#[test]
fn cats_malformed_reports() {
    assert_eq!(process_file("no document here"), Err(ProcessingError::Malformed));
    assert_eq!(process_file("x = {\"fuzzer\": ").map_err(|e| e.kind()), Err(Fault::Json));
    assert_eq!(process_file("x = {\"fuzzer\": \"A\"}"), Err(ProcessingError::Malformed));
    assert_eq!(
        process_file("x = {\"fuzzer\": \"A\", \"resultDetails\": \"d\", \"path\": \"/a\"}"),
        Err(ProcessingError::Malformed)
    );
    assert_eq!(
        process_file(&report(
            "CustomFuzzer",
            "Call returned as expected, but with undocumented code",
            70000
        )),
        Err(ProcessingError::Malformed)
    );
}

#[test]
fn cats_classify_takes_the_flags_as_given() {
    let document = read(
        "{\"fuzzer\": \"CustomFuzzer\", \"resultDetails\": \"nothing known\", \"path\": \"/a\", \"response\": {\"httpMethod\": \"GET\", \"responseCode\": 200}}",
    )
    .unwrap();
    assert_eq!(
        classify(&document, false, true),
        Ok(TestCase::pass("GET".to_string(), "/a".to_string()))
    );
    assert_eq!(classify(&document, false, false), Err(ProcessingError::Unclassified));
    assert_eq!(
        classify(&document, true, false),
        Ok(TestCase::error(None, None, ErrorKind::Internal))
    );
}

#[test]
fn cats_files_in_order() {
    let contents = vec![
        report("CustomFuzzer", MATCHES, 200),
        report("CustomFuzzer", MATCHES, 500),
        report("HappyFuzzer", MATCHES, 200),
    ];
    let cases = process_files(&contents).unwrap();
    assert_eq!(cases.len(), 3);
    assert_eq!(cases[0].result, TestCaseResult::Pass);
    assert_eq!(
        cases[1].result,
        TestCaseResult::Failure { kind: FailureKind::ServerError { status_code: 500 } }
    );
    assert_eq!(
        cases[2].result,
        TestCaseResult::Skip { kind: SkipKind::InvalidAssumption, reason: "HappyFuzzer".to_string() }
    );
    assert_eq!(process_files(&Vec::new()), Ok(Vec::new()));
    let broken = vec![report("CustomFuzzer", MATCHES, 200), "nothing".to_string()];
    assert_eq!(process_files(&broken), Err(ProcessingError::Malformed));
}
