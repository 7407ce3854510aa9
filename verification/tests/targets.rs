use postprocessing::error::ProcessingError;
use postprocessing::targets::{disease_sh, gitlab, has_analyzer, process, Failure, Target, TargetKind};

fn gitlab_line(message: &str) -> String {
    format!("{:<39}{}\n", "web_1  | 2021-01-01T10:00:00.000Z", message)
}

fn graphql(title: &str, traceback: &str) -> Failure {
    Failure {
        method: Some("POST".to_string()),
        path: Some("/api/graphql".to_string()),
        title: title.to_string(),
        traceback: traceback.to_string(),
    }
}

#[test]
fn gitlab_prefix_has_the_expected_length() {
    assert_eq!(gitlab_line("x").find('x'), Some(39));
    assert_eq!(gitlab::message(&gitlab_line("  x y  ")), Some("x y"));
    assert_eq!(gitlab::message("web_1  | short"), None);
}

#[test]
fn gitlab_failures_with_their_tracebacks() {
    let content = [
        "db_1   | ready\n".to_string(),
        gitlab_line("Started POST \"/api/graphql\""),
        gitlab_line("ActiveRecord::RecordNotFound (Couldn't find Project):"),
        gitlab_line("app/graphql/resolver.rb:10:in `resolve'"),
        "redis_1 | noise between the frames\n".to_string(),
        gitlab_line("lib/gitlab/graphql.rb:5:in `call'"),
        gitlab_line(""),
        gitlab_line("Completed 500 Internal Server Error in 12ms"),
        gitlab_line("ArgumentError (invalid byte sequence):"),
        gitlab_line("app/models/user.rb:1"),
        gitlab_line("  "),
        gitlab_line("Completed 500 Internal Server Error in 3ms"),
    ]
    .concat();
    assert_eq!(
        gitlab::process_stdout(&content),
        Ok(vec![
            graphql(
                "ActiveRecord::RecordNotFound",
                "app/graphql/resolver.rb:10:in `resolve'\nlib/gitlab/graphql.rb:5:in `call'\n"
            ),
            graphql("ArgumentError", "app/models/user.rb:1\n"),
        ])
    );
}

#[test]
fn gitlab_traceback_may_reach_the_end_of_the_log() {
    let content = [
        gitlab_line("Completed 500 Internal Server Error in 12ms"),
        gitlab_line("ArgumentError (x):"),
        gitlab_line("frame"),
    ]
    .concat();
    assert_eq!(gitlab::process_stdout(&content), Ok(vec![graphql("ArgumentError", "frame\n")]));
    assert_eq!(gitlab::process_stdout(""), Ok(Vec::new()));
    assert_eq!(gitlab::process_stdout("db_1 | Completed 200 OK\n"), Ok(Vec::new()));
}

#[test]
fn gitlab_log_that_is_refused() {
    let unmatched = gitlab_line("Completed 500 Internal Server Error in 12ms");
    assert_eq!(gitlab::process_stdout(&unmatched), Err(ProcessingError::Malformed));
    let uncounted = gitlab_line("ArgumentError (x):");
    assert_eq!(gitlab::process_stdout(&uncounted), Err(ProcessingError::Malformed));
    assert_eq!(gitlab::process_stdout("web_1  | too short\n"), Err(ProcessingError::Malformed));
}

fn disease_line(message: &str) -> String {
    format!("web_1  | 2021-01-01T10:00:00.0000000000Z {}\n", message)
}

#[test]
fn disease_sh_prefix_has_the_expected_length() {
    assert_eq!(disease_line("x").find('x'), Some(41));
    assert_eq!(disease_sh::message(&disease_line(" x ")), Some("x"));
    assert_eq!(disease_sh::frame(&disease_line(" at run (a.js:1) {{ ")), Some("at run (a.js:1)"));
    assert_eq!(disease_sh::message("web_1  short"), None);
}

#[test]
fn disease_sh_failures_with_path_and_traceback() {
    let content = [
        disease_line("GET URL: /v3/covid-19/historical/x?lastdays=y"),
        disease_line("something else"),
        disease_line("RangeError: Invalid time value"),
        disease_line("    at Date.toISOString (<anonymous>)"),
        "redis_1 | noise\n".to_string(),
        disease_line("    at getLastDays (/app/utils.js:10:3) {"),
        disease_line("}"),
        disease_line("URIError: Failed to decode param '%E0%A4%A'"),
        disease_line("ReplyError: ERR wrong number of arguments for 'hexists' command"),
        disease_line("    at parseError (/app/node_modules/redis-parser/lib/parser.js:179:12)"),
    ]
    .concat();
    assert_eq!(
        disease_sh::process_stdout(&content),
        Ok(vec![
            Failure {
                method: None,
                path: Some("/v3/covid-19/historical/x?lastdays=y".to_string()),
                title: "RangeError: Invalid time value".to_string(),
                traceback: "at Date.toISOString (<anonymous>)\nat getLastDays (/app/utils.js:10:3)\n"
                    .to_string(),
            },
            Failure {
                method: None,
                path: Some("/v3/covid-19/historical/x?lastdays=y".to_string()),
                title: "ReplyError: ERR wrong number of arguments for 'hexists' command".to_string(),
                traceback: "at parseError (/app/node_modules/redis-parser/lib/parser.js:179:12)\n"
                    .to_string(),
            },
        ])
    );
}

#[test]
fn disease_sh_request_is_looked_for_in_the_last_lines() {
    let mut content = disease_line("GET URL: /old");
    for _ in 0..19 {
        content.push_str(&disease_line("filler"));
    }
    let with_error = format!("{}{}", content, disease_line("RangeError: Invalid time value"));
    let failures = disease_sh::process_stdout(&with_error).unwrap();
    assert_eq!(failures.len(), 1);
    assert_eq!(failures[0].path, None);
    let nearer = format!(
        "{}{}{}",
        disease_line("GET URL: /old"),
        disease_line("GET URL: /new"),
        disease_line("RangeError: Invalid time value")
    );
    let failures = disease_sh::process_stdout(&nearer).unwrap();
    assert_eq!(failures[0].path.as_deref(), Some("/new"));
    let mut eighteen = disease_line("GET URL: /kept");
    for _ in 0..18 {
        eighteen.push_str(&disease_line("filler"));
    }
    eighteen.push_str(&disease_line("RangeError: Invalid time value"));
    let failures = disease_sh::process_stdout(&eighteen).unwrap();
    assert_eq!(failures[0].path.as_deref(), Some("/kept"));
}

#[test]
fn disease_sh_log_that_is_refused() {
    assert_eq!(
        disease_sh::process_stdout(&disease_line("TypeError: something new")),
        Err(ProcessingError::Unclassified)
    );
    assert_eq!(disease_sh::process_stdout("10:00Z RangeError\n"), Err(ProcessingError::Malformed));
    assert_eq!(disease_sh::process_stdout(""), Ok(Vec::new()));
}

#[test]
fn targets_with_an_analyzer() {
    assert!(has_analyzer(Target::GitLab(TargetKind::Default)));
    assert!(has_analyzer(Target::DiseaseSh(TargetKind::Linked)));
    assert!(!has_analyzer(Target::HttpBin(TargetKind::Default)));
    assert_eq!(process(Target::HttpBin(TargetKind::Default), "web_1  | too short\n"), Ok(None));
    assert_eq!(process(Target::GitLab(TargetKind::Linked), ""), Ok(Some(Vec::new())));
    assert_eq!(
        process(Target::GitLab(TargetKind::Linked), "web_1  | too short\n"),
        Err(ProcessingError::Malformed)
    );
    let failures = process(
        Target::DiseaseSh(TargetKind::Default),
        &disease_line("RangeError: Invalid time value"),
    )
    .unwrap()
    .unwrap();
    assert_eq!(failures.len(), 1);
    assert_eq!(failures[0].title, "RangeError: Invalid time value");
}
