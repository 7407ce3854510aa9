use postprocessing::error::{Fault, ProcessingError};
use postprocessing::fuzzers::schemathesis::{
    classify_check, failure_case, get_deduplicated_results, is_flaky, listed_failure_kind,
    parse_event, parse_line, process_debug_output, process_pytest_output, schema_error_case,
    status_after,
};
use postprocessing::json::read;
use postprocessing::output::{ErrorKind, FailureKind, TestCase, TestCaseResult};
use postprocessing::pattern::Group;

fn failure(method: &str, path: &str, kind: FailureKind) -> TestCase {
    TestCase {
        method: Some(method.to_string()),
        path: Some(path.to_string()),
        result: TestCaseResult::Failure { kind },
    }
}

const EVENT: &str = "{\"event_type\": \"AfterExecution\", \"result\": {\"method\": \"GET\", \"path\": \"/users/{id}\", \"checks\": [\
{\"name\": \"not_a_server_error\", \"value\": \"success\", \"response\": {\"status_code\": 200}},\
{\"name\": \"not_a_server_error\", \"value\": \"failure\", \"response\": {\"status_code\": 500, \"body\": \"x\"}, \"context\": null},\
{\"name\": \"status_code_conformance\", \"value\": \"failure\", \"response\": {\"status_code\": 404}},\
{\"name\": \"content_type_conformance\", \"value\": \"failure\", \"response\": null, \"context\": {\"type\": \"malformed_media_type\"}},\
{\"name\": \"content_type_conformance\", \"value\": \"failure\", \"context\": {\"type\": \"missing_content_type\"}},\
{\"name\": \"content_type_conformance\", \"value\": \"failure\", \"context\": {\"type\": \"other\"}},\
{\"name\": \"content_type_conformance\", \"value\": \"failure\"},\
{\"name\": \"response_headers_conformance\", \"value\": \"failure\"},\
{\"name\": \"response_schema_conformance\", \"value\": \"failure\"},\
{\"name\": \"request_timeout\", \"value\": \"failure\"},\
{\"name\": \"anything\", \"value\": \"error\"}\
]}}";

fn expected_cases() -> Vec<TestCase> {
    let (method, path) = ("GET", "/users/{id}");
    vec![
        TestCase::pass(method.to_string(), path.to_string()),
        failure(method, path, FailureKind::ServerError { status_code: 500 }),
        failure(method, path, FailureKind::UnexpectedStatusCode { status_code: 404 }),
        failure(method, path, FailureKind::MalformedMediaType),
        failure(method, path, FailureKind::MissingContentType),
        failure(method, path, FailureKind::ContentTypeConformance),
        failure(method, path, FailureKind::ContentTypeConformance),
        failure(method, path, FailureKind::ResponseHeadersConformance),
        failure(method, path, FailureKind::ResponseConformance),
        failure(method, path, FailureKind::RequestTimeout),
        TestCase::error(Some(method.to_string()), Some(path.to_string()), ErrorKind::Internal),
    ]
}

#[test]
fn schemathesis_events_one_case_per_check() {
    let content = format!(
        "{{\"event_type\": \"Initialized\", \"operations_count\": 1}}\r\n{}\n{{\"event_type\": \"Finished\"}}\n",
        EVENT
    );
    assert_eq!(process_debug_output(&content), Ok(expected_cases()));
    assert_eq!(parse_line(EVENT), Ok(expected_cases()));
    assert_eq!(parse_event(&read(EVENT).unwrap()), Ok(expected_cases()));
}

#[test]
fn schemathesis_events_in_the_order_of_the_log() {
    let first = "{\"event_type\": \"AfterExecution\", \"result\": {\"method\": \"GET\", \"path\": \"/a\", \"checks\": [{\"name\": \"x\", \"value\": \"success\"}]}}";
    let second = "{\"event_type\": \"AfterExecution\", \"result\": {\"method\": \"PUT\", \"path\": \"/b\", \"checks\": [{\"name\": \"x\", \"value\": \"success\"}, {\"name\": \"y\", \"value\": \"error\"}]}}";
    let content = format!("{}\n{}\n", first, second);
    assert_eq!(
        process_debug_output(&content),
        Ok(vec![
            TestCase::pass("GET".to_string(), "/a".to_string()),
            TestCase::pass("PUT".to_string(), "/b".to_string()),
            TestCase::error(Some("PUT".to_string()), Some("/b".to_string()), ErrorKind::Internal),
        ])
    );
    assert_eq!(process_debug_output(""), Ok(Vec::new()));
}

#[test]
fn schemathesis_events_that_are_refused() {
    assert_eq!(process_debug_output("not json\n").map_err(|e| e.kind()), Err(Fault::Json));
    assert_eq!(process_debug_output("{}\n\n"), Err(ProcessingError::Malformed));
    assert_eq!(process_debug_output("{\"event_type\": \"Finished\"}\n\n").map_err(|e| e.kind()), Err(Fault::Json));
    assert_eq!(parse_line("{\"event_type\": 1}"), Err(ProcessingError::Malformed));
    assert_eq!(parse_line("{\"event_type\": \"AfterExecution\"}"), Err(ProcessingError::Malformed));
    let event = |checks: &str| {
        format!(
            "{{\"event_type\": \"AfterExecution\", \"result\": {{\"method\": \"GET\", \"path\": \"/a\", \"checks\": {}}}}}",
            checks
        )
    };
    assert_eq!(parse_line(&event("[]")), Ok(Vec::new()));
    assert_eq!(parse_line(&event("{}")), Err(ProcessingError::Malformed));
    assert_eq!(parse_line(&event("[{\"name\": \"x\"}]")), Err(ProcessingError::Malformed));
    assert_eq!(
        parse_line(&event("[{\"name\": \"x\", \"value\": \"skipped\"}]")),
        Err(ProcessingError::Malformed)
    );
    assert_eq!(
        parse_line(&event("[{\"name\": \"x\", \"value\": \"success\", \"response\": {\"status_code\": 70000}}]")),
        Err(ProcessingError::Malformed)
    );
    assert_eq!(
        parse_line(&event("[{\"name\": \"x\", \"value\": \"success\", \"response\": {}}]")),
        Err(ProcessingError::Malformed)
    );
    assert_eq!(
        parse_line(&event("[{\"name\": \"new_check\", \"value\": \"failure\"}]")),
        Err(ProcessingError::Unclassified)
    );
    assert_eq!(
        parse_line(&event("[{\"name\": \"not_a_server_error\", \"value\": \"failure\"}]")),
        Err(ProcessingError::Malformed)
    );
    assert_eq!(
        parse_line(&event("[{\"name\": \"new_check\", \"value\": \"failure\"}, {\"name\": \"x\"}]")),
        Err(ProcessingError::Malformed)
    );
}

#[test]
fn schemathesis_classify_check_alone() {
    let check = read("{\"name\": \"status_code_conformance\", \"value\": \"failure\", \"response\": {\"status_code\": 201}}").unwrap();
    assert_eq!(
        classify_check("POST", "/a", &check),
        Ok(failure("POST", "/a", FailureKind::UnexpectedStatusCode { status_code: 201 }))
    );
    let check = read("{\"name\": \"status_code_conformance\", \"value\": \"failure\", \"response\": {\"status_code\": 20}}").unwrap();
    assert_eq!(classify_check("POST", "/a", &check), Err(ProcessingError::Malformed));
}

const SINGLE: &str = "============================= FAILURES ==============================\n\
___________________________ test_api ___________________________\n\
E   1. Received a response with 5xx status code: 502\n\
E   \n\
E   state = schema.as_state_machine()()\n\
E   state.schema['/users/{id}']['get']\n\
E   state.schema['/orders']['post']\n\
E     requests.post('http://127.0.0.1/orders', json={})\n";

#[test]
fn schemathesis_runner_single_failure() {
    assert_eq!(
        process_pytest_output(SINGLE),
        Ok(vec![failure("POST", "/orders", FailureKind::ServerError { status_code: 502 })])
    );
}

#[test]
fn schemathesis_runner_several_failures() {
    let content = [
        "hypothesis.errors.MultipleFailures: Hypothesis found 4 distinct failures.\n",
        "---------------------------------- Hypothesis ----------------------------------\n",
        "Falsifying example: run_state_machine(\n",
        "1. Received a response with 5xx status code: 500\n",
        "state.schema['/users']['get']\n",
        "  requests.get('http://127.0.0.1/users')\n",
        "Falsifying example: run_state_machine(\n",
        "schemathesis.exceptions.InvalidSchema: bad reference\n",
        "state._step(case=state.schema['/pets/{id}']['delete'].make_case())\n",
        "Falsifying example: run_state_machine(\n",
        "hypothesis.errors.Flaky: Unreliable assumption: An example which satisfied assumptions is now invalid\n",
        "Falsifying example: run_state_machine(\n",
        "hypothesis.errors.Unsatisfiable: Unable to satisfy assumptions\n",
    ]
    .concat();
    assert_eq!(
        process_pytest_output(&content),
        Ok(vec![
            failure("GET", "/users", FailureKind::ServerError { status_code: 500 }),
            TestCase::error(Some("DELETE".to_string()), Some("/pets/{id}".to_string()), ErrorKind::Schema),
            TestCase::error(None, None, ErrorKind::Flaky),
            TestCase::error(None, None, ErrorKind::Unsatisfiable),
        ])
    );
}

#[test]
fn schemathesis_runner_without_failures_is_empty() {
    assert_eq!(process_pytest_output(""), Ok(Vec::new()));
    assert_eq!(process_pytest_output("1 passed in 3.2s"), Ok(Vec::new()));
}

#[test]
fn schemathesis_runner_output_that_is_refused() {
    assert_eq!(
        process_pytest_output("hypothesis.errors.MultipleFailures: no banner"),
        Err(ProcessingError::Malformed)
    );
    assert_eq!(process_pytest_output("== FAILURES ==\nnothing else"), Err(ProcessingError::Malformed));
    let other = SINGLE.replace("Received a response with 5xx status code", "Response timed out");
    assert_eq!(process_pytest_output(&other), Err(ProcessingError::Unclassified));
    let short = SINGLE.replace(": 502", ": 5x2");
    assert_eq!(process_pytest_output(&short), Err(ProcessingError::Malformed));
}

#[test]
fn schemathesis_flaky_markers() {
    assert!(is_flaky("hypothesis.errors.Flaky: Inconsistent data generation! x"));
    assert!(is_flaky("a hypothesis.errors.Flaky: Unreliable assumption b"));
    assert!(!is_flaky("hypothesis.errors.Flaky: other"));
}

fn group(text: &str) -> Option<Group> {
    Some(Group { start: 0, end: text.len(), text: text.to_string() })
}

#[test]
fn schemathesis_runner_cases_on_given_captures() {
    let found = Some(vec![group("whole"), group("/a/{b}"), group("patch")]);
    assert_eq!(
        schema_error_case(&found),
        Ok(TestCase::error(Some("PATCH".to_string()), Some("/a/{b}".to_string()), ErrorKind::Schema))
    );
    assert_eq!(schema_error_case(&None), Err(ProcessingError::Malformed));

    let case = "3. Received a response with 5xx status code: 503 and more";
    let title = Group { start: 3, end: 43, text: "Received a response with 5xx status code".to_string() };
    let report = Some(vec![group("whole"), Some(title)]);
    let operations = vec![
        vec![group("whole"), group("/first"), group("get")],
        vec![group("whole"), group("/last"), group("put")],
    ];
    assert_eq!(
        failure_case(case, &report, &operations),
        Ok(failure("PUT", "/last", FailureKind::ServerError { status_code: 503 }))
    );
    assert_eq!(failure_case(case, &report, &Vec::new()), Err(ProcessingError::Malformed));
    assert_eq!(failure_case(case, &None, &operations), Err(ProcessingError::Malformed));
    assert_eq!(status_after(case, 43), Some(503));
    assert_eq!(status_after(case, 44), None);
    assert_eq!(status_after(case, usize::MAX), None);
    assert_eq!(status_after("é: 099", 2), None);
    assert_eq!(status_after("é: 199", 2), Some(199));
    assert_eq!(status_after("é: 199", 1), None);
}

const STDOUT: &str = "================ Schemathesis test session starts ================\n\
collected API operations: 3\n\
============================= FAILURES ==============================\n\
GET /api/users [P]\n\
1. Received a response with 5xx status code: 500\n\
\n\
    Run this Python code to reproduce this failure: \n\
2. Response timed out after 10000.00ms\n\
\n\
POST /api/users/{id}   [N]  \n\
1. The received response does not conform to the defined schema!\n\
2. Received a response with a status code, which is not defined in the schema: 418\n\
3. Received a response with 'text/html' Content-Type, but it is not declared in the schema.\n\
4. Response is missing the `Content-Type` header\n\
5. Malformed media type: `x`\n\
GET /api/ok [P]\n\
============================== SUMMARY ==============================\n";

#[test]
fn schemathesis_listed_failures_one_case_per_category() {
    let cases = get_deduplicated_results(STDOUT).unwrap().unwrap();
    assert_eq!(
        cases,
        vec![
            failure("GET", "/api/users", FailureKind::ServerError { status_code: 500 }),
            failure("GET", "/api/users", FailureKind::RequestTimeout),
            failure("POST", "/api/users/{id}", FailureKind::ResponseConformance),
            failure("POST", "/api/users/{id}", FailureKind::UnexpectedStatusCode { status_code: 418 }),
            failure("POST", "/api/users/{id}", FailureKind::ContentTypeConformance),
            failure("POST", "/api/users/{id}", FailureKind::MissingContentType),
            failure("POST", "/api/users/{id}", FailureKind::MalformedMediaType),
        ]
    );
}

#[test]
fn schemathesis_listed_failures_follow_their_endpoint() {
    let content = "FAILURES\nGET /a [P]\n1. Response timed out after 1ms\nPUT /b  [N]  \n1. Malformed media type\n";
    assert_eq!(
        get_deduplicated_results(content),
        Ok(Some(vec![
            failure("GET", "/a", FailureKind::RequestTimeout),
            failure("PUT", "/b", FailureKind::MalformedMediaType),
        ]))
    );
}

#[test]
fn schemathesis_no_failures_no_list() {
    assert_eq!(get_deduplicated_results("GET /a . [P]\n"), Ok(None));
    assert_eq!(get_deduplicated_results(""), Ok(None));
    assert_eq!(get_deduplicated_results("FAILURES"), Ok(Some(Vec::new())));
}

#[test]
fn schemathesis_listed_failures_that_are_refused() {
    assert_eq!(
        get_deduplicated_results("FAILURES\n1. Response timed out after 1ms\n"),
        Err(ProcessingError::Malformed)
    );
    assert_eq!(get_deduplicated_results("FAILURES\n[P]\n"), Err(ProcessingError::Malformed));
    assert_eq!(
        get_deduplicated_results("FAILURES\nGET /a [P]\n1. Something new\n"),
        Err(ProcessingError::Unclassified)
    );
    assert_eq!(
        get_deduplicated_results("FAILURES\nGET /a [P]\n1. Received a response with 5xx status code: 50\n"),
        Err(ProcessingError::Malformed)
    );
}

#[test]
fn schemathesis_listed_failure_on_given_captures() {
    let status = |digits: &str| Some(vec![group("whole"), group(digits)]);
    assert_eq!(
        listed_failure_kind("Response timed out after", &status("500"), &status("404"), true),
        Ok(FailureKind::ServerError { status_code: 500 })
    );
    assert_eq!(
        listed_failure_kind("Response timed out after", &None, &status("404"), true),
        Ok(FailureKind::RequestTimeout)
    );
    assert_eq!(
        listed_failure_kind("x", &None, &status("404"), true),
        Ok(FailureKind::UnexpectedStatusCode { status_code: 404 })
    );
    assert_eq!(listed_failure_kind("x", &None, &None, true), Ok(FailureKind::ContentTypeConformance));
    assert_eq!(listed_failure_kind("x", &None, &None, false), Err(ProcessingError::Unclassified));
    assert_eq!(listed_failure_kind("x", &status("1000"), &None, false), Err(ProcessingError::Malformed));
}
