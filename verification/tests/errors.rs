use postprocessing::error::{Fault, ProcessingError};
use postprocessing::json::read;
use postprocessing::metadata::read_metadata;
use postprocessing::web::normalized_path;
use postprocessing::pattern::{compiled, read_status, status_in, text_of, Group};

#[test]
fn expression_that_does_not_compile_is_refused() {
    assert!(matches!(compiled("(unclosed"), Err(ProcessingError::Pattern(_))));
    assert!(matches!(compiled(r"\w{100000}"), Err(ProcessingError::Pattern(_))));
    assert!(compiled(r"(\w+?) (.+?) Monkey Test").is_ok());
}

#[test]
fn every_error_has_its_sentence() {
    let faults = [
        Fault::Glob,
        Fault::InvalidDirectoryName,
        Fault::Json,
        Fault::Pattern,
        Fault::Url,
        Fault::Malformed,
        Fault::Unclassified,
    ];
    for (i, first) in faults.iter().enumerate() {
        assert!(!first.sentence().is_empty());
        for second in &faults[i + 1..] {
            assert_ne!(first.sentence(), second.sentence());
        }
    }
    assert_eq!(ProcessingError::Malformed.message(), "the output does not have the expected shape");
    assert_eq!(ProcessingError::Malformed.cause_text(), None);
    assert_eq!(ProcessingError::Unclassified.kind(), Fault::Unclassified);
    let error = ProcessingError::Json("EOF while parsing".to_string());
    assert_eq!(error.kind(), Fault::Json);
    assert_eq!(error.cause_text(), Some("EOF while parsing"));
    assert_eq!(error.message(), "a document is not valid JSON: EOF while parsing");
}

#[test]
fn errors_carry_the_words_of_their_cause() {
    let error = compiled("(unclosed").err().unwrap();
    assert_eq!(error.kind(), Fault::Pattern);
    assert!(error.cause_text().unwrap().contains("unclosed group"));
    let error = read("{\"a\": ").unwrap_err();
    assert_eq!(error.kind(), Fault::Json);
    assert!(error.cause_text().unwrap().contains("EOF while parsing"));
    let error = normalized_path("/relative").unwrap_err();
    assert_eq!(error.kind(), Fault::Url);
    assert_eq!(error.cause_text(), Some("relative URL without a base"));
    let error = read_metadata("{\"fuzzer\": \"dogs\", \"target\": \"httpbin:Default\", \"duration\": 1}").unwrap_err();
    assert_eq!(error, ProcessingError::Json("Unknown fuzzer: dogs".to_string()));
}

#[test]
fn expression_keeps_its_source() {
    let expression = compiled(r"Status (5\d{2}) detected").ok().unwrap();
    assert_eq!(expression.source(), r"Status (5\d{2}) detected");
}

#[test]
fn status_codes_have_three_digits() {
    assert_eq!(read_status("100"), Some(100));
    assert_eq!(read_status("999"), Some(999));
    assert_eq!(read_status("+200"), Some(200));
    assert_eq!(read_status("0200"), Some(200));
    assert_eq!(read_status("99"), None);
    assert_eq!(read_status("1000"), None);
    assert_eq!(read_status(""), None);
    assert_eq!(read_status("2xx"), None);
}

#[test]
fn group_of_a_match_by_its_number() {
    let groups = vec![
        Some(Group { start: 0, end: 7, text: "GET 200".to_string() }),
        Some(Group { start: 0, end: 3, text: "GET".to_string() }),
        None,
        Some(Group { start: 4, end: 7, text: "200".to_string() }),
    ];
    assert_eq!(text_of(&groups, 0), Some("GET 200"));
    assert_eq!(text_of(&groups, 1), Some("GET"));
    assert_eq!(text_of(&groups, 2), None);
    assert_eq!(text_of(&groups, 4), None);
    assert_eq!(status_in(&groups, 3), Some(200));
    assert_eq!(status_in(&groups, 1), None);
    assert_eq!(status_in(&groups, 2), None);
}
