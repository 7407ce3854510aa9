use postprocessing::error::ProcessingError;
use postprocessing::fuzzers::api_fuzzer::{classify, process_stdout, Captured};
use postprocessing::output::{ErrorKind, FailureKind, TestCase, TestCaseResult};
use postprocessing::pattern::Group;

const PASSED: &str = "10 [INFO] kitty: Request URL : b'GET' http://host/api/items/42?x=1\n11 [INFO] kitty: done\n";
const UNEXPECTED: &str = "\n20 [INFO] kitty: Request URL : b'POST' http://host/api/users\r\n21 [ERROR] kitty: ('Response code is not in the expected list:', 500)\n";
const CURL: &str = "\n30 [INFO] kitty: Compiled url in http://host/api/pets/5, out: http://host/api/pets/5\n31 [INFO] kitty: Request URL : b'DELETE' http://host/api/pets/5\r\npycurl.error: (3, '')\n";

fn transcript() -> String {
    format!(
        "{}12 [INFO] kitty: Current test: 1{}22 [INFO] kitty: Current test: 2{}",
        PASSED, UNEXPECTED, CURL
    )
}

#[test]
fn api_fuzzer_one_case_per_category() {
    let cases = process_stdout(&transcript()).unwrap();
    assert_eq!(
        cases,
        vec![
            TestCase::pass("GET".to_string(), "/api/items/42".to_string()),
            TestCase::unexpected_status_code("POST".to_string(), "/api/users".to_string(), 500),
            TestCase::error(
                Some("DELETE".to_string()),
                Some("/api/pets/5".to_string()),
                ErrorKind::Internal
            ),
        ]
    );
}

#[test]
fn api_fuzzer_part_without_request_is_malformed() {
    assert_eq!(process_stdout(""), Err(ProcessingError::Malformed));
    let content = format!("{}12 [INFO] kitty: Current test: 1\nnothing sent\n", PASSED);
    assert_eq!(process_stdout(&content), Err(ProcessingError::Malformed));
}

#[test]
fn api_fuzzer_status_code_must_be_valid() {
    let content = "1 [INFO] kitty: Request URL : b'GET' http://host/a?b\nis not in the expected list:', 7)";
    assert_eq!(process_stdout(content), Err(ProcessingError::Malformed));
}

fn group(text: &str) -> Option<Group> {
    Some(Group { start: 0, end: text.len(), text: text.to_string() })
}

#[test]
fn api_fuzzer_classify_on_given_captures() {
    let found = Captured {
        path_parameters: None,
        method: None,
        url: Some(vec![group("whole"), group("PUT"), group("http://host/api/a/b")]),
        status_code: Some(vec![group("whole"), group("404")]),
    };
    assert_eq!(
        classify("no marker", &found),
        Ok(TestCase {
            method: Some("PUT".to_string()),
            path: Some("/api/a/b".to_string()),
            result: TestCaseResult::Failure {
                kind: FailureKind::UnexpectedStatusCode { status_code: 404 }
            },
        })
    );
    assert_eq!(
        classify("pycurl.error: (3, '')", &found),
        Ok(TestCase::error(
            Some("PUT".to_string()),
            Some("/api/a/b".to_string()),
            ErrorKind::Internal
        ))
    );
    let with_parameters = Captured {
        path_parameters: Some(vec![group("whole"), group("http://host/c/1?q=2")]),
        method: Some(vec![group("whole"), group("GET")]),
        url: None,
        status_code: None,
    };
    assert_eq!(
        classify("", &with_parameters),
        Ok(TestCase::pass("GET".to_string(), "/c/1".to_string()))
    );
    let nothing = Captured { path_parameters: None, method: None, url: None, status_code: None };
    assert_eq!(classify("", &nothing), Err(ProcessingError::Malformed));
    let no_url = Captured {
        path_parameters: None,
        method: None,
        url: Some(vec![group("whole"), group("GET"), group("not a url")]),
        status_code: None,
    };
    assert!(matches!(classify("", &no_url), Err(ProcessingError::Url(_))));
}
