use postprocessing::error::ProcessingError;
use postprocessing::fuzzers::swagger_fuzzer::{classify, process_stdout};
use postprocessing::output::{ErrorKind, FailureKind, TestCase, TestCaseResult};
use postprocessing::pattern::Group;

const TRANSCRIPT: &str = "swagger fuzzer 0.1\n\
Falsifying example: swagger_fuzzer(data=...)\n\
Curl command: curl -i -X POST -H 'Accept: application/json' 'http://host/api/pets?limit=1'\n\
AssertionError: Response content-type text/html is not one of ['application/json']\n\
Falsifying example: swagger_fuzzer(data=...)\n\
Exception: ('Invalid', 'schema')\n";

#[test]
fn swagger_fuzzer_one_case_per_category() {
    let cases = process_stdout(TRANSCRIPT).unwrap();
    assert_eq!(
        cases,
        vec![
            TestCase {
                method: Some("POST".to_string()),
                path: Some("/api/pets".to_string()),
                result: TestCaseResult::Failure { kind: FailureKind::ContentTypeConformance },
            },
            TestCase { method: None, path: None, result: TestCaseResult::Error { kind: ErrorKind::Schema } },
        ]
    );
}

#[test]
fn swagger_fuzzer_without_examples_is_empty() {
    assert_eq!(process_stdout(""), Ok(Vec::new()));
    assert_eq!(process_stdout("all fine\n"), Ok(Vec::new()));
}

#[test]
fn swagger_fuzzer_unknown_example_is_unclassified() {
    assert_eq!(
        process_stdout("Falsifying example: x\nValueError: new\n"),
        Err(ProcessingError::Unclassified)
    );
}

fn group(text: &str) -> Option<Group> {
    Some(Group { start: 0, end: text.len(), text: text.to_string() })
}

#[test]
fn swagger_fuzzer_classify_on_given_captures() {
    let found = Some(vec![group("whole"), group("GET"), group("http://host/a/b?c=d")]);
    assert_eq!(
        classify("Exception: ('Invalid', 1) AssertionError: Response content-type", &found),
        Ok(TestCase::error(Some("GET".to_string()), Some("/a/b".to_string()), ErrorKind::Schema))
    );
    let not_a_url = Some(vec![group("whole"), group("GET"), group("host/a")]);
    assert!(matches!(
        classify("AssertionError: Response content-type", &not_a_url),
        Err(ProcessingError::Url(_))
    ));
    assert_eq!(classify("neither", &None), Err(ProcessingError::Unclassified));
}
