use postprocessing::error::ProcessingError;
use postprocessing::fuzzers::tnt_fuzzer::{process_row, process_stdout, strip_color};
use postprocessing::output::TestCase;

fn row(method: &str, url: &str, code: &str, reason: &str) -> String {
    format!("\x1b[31m{}\x1b[0m | \x1b[32m{}\x1b[0m |-| {} | {} | body\n", method, url, code, reason)
}

#[test]
fn tnt_fuzzer_one_case_per_category() {
    let content = [
        "TnT-Fuzzer\nFetching open API from: http://host/swagger.json\n".to_string(),
        row("get", "http://host/api/pets?limit=2", "200", "OK"),
        row("post", "http://host/api/pets", "404", "None"),
        row("put", "http://host/api/pets/1", "500", "Internal"),
        row("delete", "http://host/api/pets/1", "503", "None"),
    ]
    .concat();
    assert_eq!(
        process_stdout(&content),
        Ok(vec![
            TestCase::pass("GET".to_string(), "/api/pets".to_string()),
            TestCase::unexpected_status_code("POST".to_string(), "/api/pets".to_string(), 404),
            TestCase::server_error("PUT".to_string(), "/api/pets/1".to_string(), 500),
            TestCase::unexpected_status_code("DELETE".to_string(), "/api/pets/1".to_string(), 503),
        ])
    );
}

#[test]
fn tnt_fuzzer_without_table_is_malformed() {
    assert_eq!(process_stdout("nothing fetched"), Err(ProcessingError::Malformed));
}

#[test]
fn tnt_fuzzer_empty_table() {
    assert_eq!(process_stdout("Fetching open API from: http://host/x"), Ok(Vec::new()));
    assert_eq!(process_stdout("Fetching open API from: http://host/x\n"), Ok(Vec::new()));
    assert_eq!(
        process_stdout("Fetching open API from: http://host/x\nnot a row\n"),
        Err(ProcessingError::Malformed)
    );
}

#[test]
fn tnt_fuzzer_malformed_rows() {
    assert_eq!(process_row("a|b|c|d"), Err(ProcessingError::Malformed));
    assert_eq!(process_row("get|http://h/a|-|200|OK"), Err(ProcessingError::Malformed));
    assert_eq!(
        process_row("\x1b[31mget\x1b[0m|\x1b[32mhttp://h/a\x1b[0m|-|abc|OK"),
        Err(ProcessingError::Malformed)
    );
    assert!(matches!(
        process_row("\x1b[31mget\x1b[0m|\x1b[32mnot a url\x1b[0m|-|200|OK"),
        Err(ProcessingError::Url(_))
    ));
    assert_eq!(
        process_row("\x1b[31mget\x1b[0m|\x1b[32http://h/a\x1b[0m|-|200|OK"),
        Err(ProcessingError::Malformed)
    );
    assert_eq!(
        process_row("\x1b[31mget\x1b[0m|\x1b[32mhttp://h/a\x1b[0m|-|99|OK"),
        Err(ProcessingError::Malformed)
    );
}

#[test]
fn tnt_fuzzer_strip_color() {
    assert_eq!(strip_color("  \x1b[31m get \x1b[0m ", "\x1b[31m", "\x1b[0m"), Some("get"));
    assert_eq!(strip_color("get", "\x1b[31m", "\x1b[0m"), None);
    assert_eq!(strip_color("\x1b[31mget", "\x1b[31m", "\x1b[0m"), None);
    assert_eq!(strip_color("\x1b[31m\x1b[0m", "\x1b[31m", "\x1b[0m"), Some(""));
}

#[test]
fn tnt_fuzzer_url_is_read_as_it_stands() {
    assert_eq!(
        process_row("\x1b[31mget\x1b[0m|\x1b[32mhttp://host\x1b[0m|-|200|OK"),
        Ok(TestCase::pass("GET".to_string(), "/".to_string()))
    );
    assert_eq!(
        process_row("\x1b[31mget\x1b[0m|\x1b[32mhttp://host/a\\b\x1b[0m|-|200|OK"),
        Ok(TestCase::pass("GET".to_string(), "/a/b".to_string()))
    );
    assert_eq!(strip_color("\x1b[32mhttp://host\x1b[0m", "\x1b[32m", "\x1b[0m"), Some("http://host"));
}
