use postprocessing::error::ProcessingError;
use postprocessing::sentry::{
    events_url, get_endpoint, get_transaction, next_call, parse_events, process_event,
    project_of, should_be_skipped, unquote, Endpoint, Entry, Exception, Frame, RawEvent, Summary,
    Tag,
};

#[test]
fn events_of_the_targets_own_logging_are_skipped() {
    assert!(should_be_skipped("127.0.0.1 code 400, message Bad request syntax ('x')"));
    assert!(should_be_skipped("received signal 15, stopping"));
    assert!(should_be_skipped("Received signal SIGTERM"));
    assert!(should_be_skipped("To access the server, open this file in a browser: file:///x"));
    assert!(should_be_skipped("{"));
    assert!(!should_be_skipped("{}"));
    assert!(!should_be_skipped("ZeroDivisionError: division by zero"));
    assert!(!should_be_skipped(""));
}

fn tag(key: &str, value: &str) -> Tag {
    Tag { key: key.to_string(), value: value.to_string() }
}

#[test]
fn transaction_is_the_first_tag_of_that_key() {
    let tags = vec![tag("level", "error"), tag("transaction", "/api/a"), tag("transaction", "/api/b")];
    assert_eq!(get_transaction(&tags), Some("/api/a".to_string()));
    assert_eq!(get_transaction(&vec![tag("level", "error")]), None);
    assert_eq!(get_transaction(&Vec::new()), None);
}

fn request(method: Option<&str>, url: &str) -> Entry {
    Entry::Request { method: method.map(|m| m.to_string()), url: url.to_string() }
}

fn exception(shown: &[Option<&str>]) -> Entry {
    Entry::Exception {
        values: vec![
            Exception { frames: None },
            Exception {
                frames: Some(
                    shown.iter().map(|s| Frame { request_method: s.map(|m| m.to_string()) }).collect(),
                ),
            },
        ],
    }
}

fn endpoint(method: Option<&str>, path: Option<&str>) -> Endpoint {
    Endpoint { method: method.map(|m| m.to_string()), path: path.map(|p| p.to_string()) }
}

#[test]
fn endpoint_of_a_request_entry() {
    let entries = vec![
        Entry::Message,
        request(None, "http://host/skipped"),
        exception(&[Some("'PUT'")]),
        request(Some("POST"), "http://host/api/items/42?x=1"),
        request(Some("GET"), "http://host/later"),
    ];
    assert_eq!(
        get_endpoint("Error handling request /other", &entries),
        Ok(endpoint(Some("POST"), Some("/api/items/42")))
    );
    assert!(matches!(
        get_endpoint("x", &vec![request(Some("GET"), "no url")]),
        Err(ProcessingError::Url(_))
    ));
}

#[test]
fn endpoint_of_an_application_server_error() {
    let entries = vec![Entry::Breadcrumbs, exception(&[None, Some("'DELETE'"), Some("'GET'")])];
    assert_eq!(
        get_endpoint("Error handling request /api/items/7", &entries),
        Ok(endpoint(Some("DELETE"), Some("/api/items/7")))
    );
    assert_eq!(get_endpoint("Another error /api/items/7", &entries), Ok(endpoint(None, None)));
    assert_eq!(
        get_endpoint("Error handling request /a", &vec![exception(&[None])]),
        Ok(endpoint(None, None))
    );
    assert_eq!(
        get_endpoint("Error handling request /a", &vec![exception(&[Some("G")])]),
        Err(ProcessingError::Malformed)
    );
    assert_eq!(get_endpoint("", &Vec::new()), Ok(endpoint(None, None)));
}

#[test]
fn unquote_drops_the_first_and_the_last_byte() {
    for shown in ["'GET'", "ab", "a", "", "éa'", "'aé", "'é'", "abc"] {
        let expected = if shown.is_empty() { None } else { shown.get(1..shown.len() - 1) };
        assert_eq!(unquote(shown), expected, "{:?}", shown);
    }
    assert_eq!(unquote("'POST'"), Some("POST"));
}

#[test]
fn project_is_the_name_of_the_target() {
    assert_eq!(project_of("httpbin:Default"), "httpbin");
    assert_eq!(project_of("httpbin"), "httpbin");
    assert_eq!(project_of("a:b:c"), "a");
    assert_eq!(project_of(""), "");
}

#[test]
fn first_page_of_events() {
    assert_eq!(
        events_url("http://sentry:9000/", "httpbin"),
        "http://sentry:9000/api/0/projects/sentry/httpbin/events/?full=true"
    );
}

#[test]
fn next_page_of_events() {
    assert_eq!(next_call(None), Ok((None, false)));
    assert_eq!(
        next_call(Some(("http://sentry/next", Some("true")))),
        Ok((Some("http://sentry/next".to_string()), true))
    );
    assert_eq!(
        next_call(Some(("http://sentry/next", Some("false")))),
        Ok((Some("http://sentry/next".to_string()), false))
    );
    assert_eq!(next_call(Some(("http://sentry/next", Some("maybe")))), Err(ProcessingError::Malformed));
    assert_eq!(next_call(Some(("http://sentry/next", None))), Err(ProcessingError::Malformed));
}

fn event(title: &str, message: &str, entries: Vec<Entry>) -> RawEvent {
    RawEvent {
        title: title.to_string(),
        message: message.to_string(),
        tags: vec![tag("transaction", "/t")],
        entries,
    }
}

#[test]
fn events_of_a_run_one_for_one() {
    let events = vec![
        event("ZeroDivisionError", "boom", vec![request(Some("GET"), "http://host/a?b=c")]),
        event("Received signal SIGTERM", "bye", vec![request(Some("GET"), "not a url")]),
        event("KeyError", "Error handling request /x", Vec::new()),
    ];
    assert_eq!(
        parse_events(&events),
        Ok(vec![
            Some(Summary {
                transaction: Some("/t".to_string()),
                endpoint: endpoint(Some("GET"), Some("/a")),
            }),
            None,
            Some(Summary { transaction: Some("/t".to_string()), endpoint: endpoint(None, None) }),
        ])
    );
    assert_eq!(parse_events(&Vec::new()), Ok(Vec::new()));
    assert_eq!(process_event(&events[1]), Ok(None));
}

#[test]
fn malformed_event_stops_the_run() {
    let events = vec![
        event("ZeroDivisionError", "boom", Vec::new()),
        event("KeyError", "boom", vec![request(Some("GET"), "not a url")]),
    ];
    assert!(matches!(parse_events(&events), Err(ProcessingError::Url(_))));
    assert!(matches!(process_event(&events[1]), Err(ProcessingError::Url(_))));
}
