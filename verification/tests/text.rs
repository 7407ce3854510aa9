use postprocessing::text::{
    count_occurrences, ends_with, from_first, lines, parse_u16, parse_usize, same_text,
    slice_bytes, split, split_characters, starts_with, trim_end_matches,
};

#[test]
fn split_walks_the_text_like_std() {
    for (text, delimiter) in [
        ("a|b|c", "|"),
        ("|a||b|", "|"),
        ("", "|"),
        ("abc", "|"),
        ("aaaa", "aa"),
        ("xFalsifying example:yFalsifying example:z", "Falsifying example:"),
        ("é|ü", "|"),
        ("abc", ""),
        ("", ""),
        ("é☃", ""),
    ] {
        let expected: Vec<&str> = text.split(delimiter).collect();
        assert_eq!(split(text, delimiter), expected);
    }
}

#[test]
fn split_gives_exact_pieces() {
    assert_eq!(split("a--b--", "--"), vec!["a", "b", ""]);
    assert_eq!(split("no delimiter", "--"), vec!["no delimiter"]);
}

#[test]
fn lines_walks_the_text_like_std() {
    for text in ["", "a", "a\n", "a\nb", "a\r\nb\r\n", "\n", "\n\n", "a\r", "a\r\n\r\n", "\r\n", "a\rb\nc"] {
        let expected: Vec<&str> = text.lines().collect();
        assert_eq!(lines(text), expected, "lines of {:?}", text);
    }
}

#[test]
fn lines_drops_line_ends() {
    assert_eq!(lines("one\r\ntwo\nthree"), vec!["one", "two", "three"]);
    assert_eq!(lines("kept\r"), vec!["kept\r"]);
}

#[test]
fn same_text_compares_contents() {
    assert!(same_text("abc", "abc"));
    assert!(same_text("", ""));
    assert!(!same_text("abc", "ab"));
    assert!(!same_text("ab", "abc"));
    assert!(!same_text("abc", "abd"));
}

#[test]
fn prefixes_and_suffixes() {
    assert!(starts_with("web_1  | x", "web_1  |"));
    assert!(!starts_with("web_2  | x", "web_1  |"));
    assert!(starts_with("x", ""));
    assert!(ends_with("GET /users [P]", "[P]"));
    assert!(!ends_with("GET /users [P] ", "[P]"));
    assert!(!ends_with("P]", "[P]"));
}

#[test]
fn from_first_starts_at_the_needle() {
    assert_eq!(from_first("var data = {\"a\": {}}", "{"), Some("{\"a\": {}}"));
    assert_eq!(from_first("é{x{y", "{"), Some("{x{y"));
    assert_eq!(from_first("nothing", "{"), None);
    assert_eq!(from_first("abc", ""), Some("abc"));
}

#[test]
fn parse_u16_reads_like_std() {
    for text in ["0", "7", "500", "0500", "65535", "65536", "99999999999999999999", "+5", "+", "", "-1", " 5", "5 ", "5a", "٥", "1_0", "000000000000000000000000001"] {
        assert_eq!(parse_u16(text), text.parse::<u16>().ok(), "parse of {:?}", text);
    }
}

#[test]
fn parse_u16_gives_exact_values() {
    assert_eq!(parse_u16("404"), Some(404));
    assert_eq!(parse_u16("65535"), Some(65535));
    assert_eq!(parse_u16("65536"), None);
}

#[test]
fn parse_usize_reads_like_std() {
    for text in ["0", "12", "18446744073709551615", "18446744073709551616", "+3", "x"] {
        assert_eq!(parse_usize(text), text.parse::<usize>().ok(), "parse of {:?}", text);
    }
}

#[test]
fn slice_bytes_is_range_indexing() {
    let text = "aé: 500 rest";
    for from in 0..=text.len() + 1 {
        for to in 0..=text.len() + 1 {
            assert_eq!(slice_bytes(text, from, to), text.get(from..to), "{}..{}", from, to);
        }
    }
    assert_eq!(slice_bytes("code: 502!", 6, 9), Some("502"));
}

#[test]
fn split_by_nothing_gives_the_characters() {
    assert_eq!(split("ab", ""), vec!["", "a", "b", ""]);
    assert_eq!(split_characters("é"), vec!["", "é", ""]);
    assert_eq!(split_characters(""), vec!["", ""]);
}

#[test]
fn occurrences_are_counted_like_std() {
    for (text, needle) in [("a 500 b 500", "500"), ("aaaa", "aa"), ("abc", "x"), ("", "x"), ("abc", ""), ("", ""), ("é", "")] {
        assert_eq!(count_occurrences(text, needle), text.matches(needle).count(), "{:?} in {:?}", needle, text);
    }
    assert_eq!(count_occurrences("a-b-c", "-"), 2);
}

#[test]
fn trailing_suffixes_are_cut_like_std() {
    for (text, suffix) in [("run {{{", "{"), ("abab", "ab"), ("abc", "x"), ("", "x"), ("abc", ""), ("", ""), ("{", "{")] {
        assert_eq!(trim_end_matches(text, suffix), text.trim_end_matches(suffix), "{:?} off {:?}", suffix, text);
    }
    assert_eq!(trim_end_matches("at f() {{", "{"), "at f() ");
}
