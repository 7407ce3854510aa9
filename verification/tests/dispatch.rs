use postprocessing::error::ProcessingError;
use postprocessing::fuzzers::{
    artifacts_of, process, Artifacts, Deduplicated, Fuzzer, Input, SchemathesisKind,
};
use postprocessing::output::{FailureKind, TestCase, TestCaseResult};

#[test]
fn each_engine_reads_its_artifacts() {
    assert_eq!(artifacts_of(Fuzzer::ApiFuzzer), Artifacts::Stdout);
    assert_eq!(artifacts_of(Fuzzer::TntFuzzer), Artifacts::Stdout);
    assert_eq!(artifacts_of(Fuzzer::SwaggerFuzzer), Artifacts::Stdout);
    assert_eq!(artifacts_of(Fuzzer::GotSwag), Artifacts::Stdout);
    assert_eq!(artifacts_of(Fuzzer::FuzzLightyear), Artifacts::Stdout);
    assert_eq!(artifacts_of(Fuzzer::Schemathesis(SchemathesisKind::StatefulNew)), Artifacts::Stdout);
    assert_eq!(artifacts_of(Fuzzer::Schemathesis(SchemathesisKind::StatefulOld)), Artifacts::Events);
    assert_eq!(artifacts_of(Fuzzer::Schemathesis(SchemathesisKind::Default)), Artifacts::Events);
    assert_eq!(artifacts_of(Fuzzer::Restler), Artifacts::Logs);
    assert_eq!(artifacts_of(Fuzzer::Cats), Artifacts::Reports);
}

#[test]
fn dispatch_runs_the_parser_of_the_engine() {
    let stdout = "Falsifying example: x\nAssertionError: Response content-type\n".to_string();
    let processed = process(Fuzzer::SwaggerFuzzer, &Input::Stdout(stdout.clone())).ok().unwrap();
    assert_eq!(
        processed.cases,
        vec![TestCase::new(None, None, TestCaseResult::Failure { kind: FailureKind::ContentTypeConformance })]
    );
    assert!(matches!(processed.deduplicated, Deduplicated::Nothing));
    let processed = process(Fuzzer::GotSwag, &Input::Stdout(stdout.clone())).ok().unwrap();
    assert_eq!(processed.cases, Vec::new());
    let processed = process(Fuzzer::FuzzLightyear, &Input::Stdout(stdout.clone())).ok().unwrap();
    assert_eq!(processed.cases, Vec::new());
    assert!(matches!(
        process(Fuzzer::TntFuzzer, &Input::Stdout(stdout.clone())),
        Err(ProcessingError::Malformed)
    ));
    assert!(matches!(
        process(Fuzzer::ApiFuzzer, &Input::Stdout(stdout)),
        Err(ProcessingError::Malformed)
    ));
}

#[test]
fn dispatch_refuses_input_of_another_kind() {
    let stdout = || Input::Stdout(String::new());
    assert!(matches!(process(Fuzzer::Cats, &stdout()), Err(ProcessingError::Malformed)));
    assert!(matches!(process(Fuzzer::Restler, &stdout()), Err(ProcessingError::Malformed)));
    assert!(matches!(
        process(Fuzzer::Schemathesis(SchemathesisKind::Default), &stdout()),
        Err(ProcessingError::Malformed)
    ));
    assert!(matches!(
        process(
            Fuzzer::Schemathesis(SchemathesisKind::StatefulNew),
            &Input::Events { events: String::new(), stdout: String::new() }
        ),
        Err(ProcessingError::Malformed)
    ));
    assert!(matches!(process(Fuzzer::GotSwag, &Input::Reports(Vec::new())), Err(ProcessingError::Malformed)));
}

#[test]
fn dispatch_of_schemathesis_events() {
    let events = "{\"event_type\": \"AfterExecution\", \"result\": {\"method\": \"GET\", \"path\": \"/a\", \"checks\": [{\"name\": \"x\", \"value\": \"success\"}]}}\n".to_string();
    let stdout = "FAILURES\nGET /a [P]\n1. Response timed out after 1ms\n".to_string();
    let processed = process(
        Fuzzer::Schemathesis(SchemathesisKind::Negative),
        &Input::Events { events: events.clone(), stdout },
    )
    .ok()
    .unwrap();
    assert_eq!(processed.cases, vec![TestCase::pass("GET".to_string(), "/a".to_string())]);
    match processed.deduplicated {
        Deduplicated::Cases(cases) => {
            assert_eq!(cases, vec![TestCase::request_timeout("GET".to_string(), "/a".to_string())])
        }
        _ => panic!("the listed failures are missing"),
    }
    let processed = process(
        Fuzzer::Schemathesis(SchemathesisKind::Default),
        &Input::Events { events: events.clone(), stdout: "all passed".to_string() },
    )
    .ok()
    .unwrap();
    assert!(matches!(processed.deduplicated, Deduplicated::Nothing));
    assert!(matches!(
        process(
            Fuzzer::Schemathesis(SchemathesisKind::Default),
            &Input::Events { events, stdout: "FAILURES\n1. x\n".to_string() },
        ),
        Err(ProcessingError::Malformed)
    ));
}

#[test]
fn dispatch_of_restler_logs() {
    let input = Input::Logs {
        main_log: "'main_driver': 1".to_string(),
        network_log: "Generation-1: Rendering Sequence-1\nSending: 'GET /a HTTP/1.1'\nReceived: 'HTTP/1.1 500 x'".to_string(),
        buckets: "{\"500\": {\"b\": [{\"request\": {\"RequestData\": {\"method\": \"GET\", \"path\": \"/a\", \"query\": \"\", \"body\": \"\"}}, \"response\": {\"ResponseData\": {\"code\": 500, \"content\": \"\"}}}]}}".to_string(),
    };
    let processed = process(Fuzzer::Restler, &input).ok().unwrap();
    assert_eq!(processed.cases, vec![TestCase::server_error("GET".to_string(), "/a".to_string(), 500)]);
    match processed.deduplicated {
        Deduplicated::Entries(entries) => {
            assert_eq!(entries.len(), 1);
            assert_eq!(entries[0].method, "GET");
            assert_eq!(entries[0].path, "/a");
            assert_eq!(entries[0].failures, vec![("server_error".to_string(), 1)]);
        }
        _ => panic!("the summary is missing"),
    }
}

#[test]
fn dispatch_of_cats_reports() {
    let report = "x = {\"fuzzer\": \"HappyFuzzer\", \"resultDetails\": \"d\", \"path\": \"/a\", \"response\": {\"httpMethod\": \"GET\", \"responseCode\": 200}}".to_string();
    let processed = process(Fuzzer::Cats, &Input::Reports(vec![report])).ok().unwrap();
    assert_eq!(processed.cases.len(), 1);
    assert_eq!(processed.cases[0].method.as_deref(), Some("GET"));
}
