use apache_log_exporter::access_log_parser::extract_between_chars;
use apache_log_exporter::access_log_parser::next_space_delimited_part;
use apache_log_exporter::access_log_parser::AccessLogLineParts;
use apache_log_exporter::access_log_parser::ParseError;

const LINE: &str = "[01/Feb/2023:10:00:00 +0100] 192.0.2.7 \"GET /index.html HTTP/1.1\" 200 5120 37 \"https://example.com/\" \"Mozilla/5.0 (X11; Linux)\"";

#[test]
fn a_whole_line() {
    let parts = AccessLogLineParts::parse(LINE).ok().unwrap();
    assert_eq!(parts.time, "01/Feb/2023:10:00:00 +0100");
    assert_eq!(parts.remote_host, "192.0.2.7");
    assert_eq!(parts.request, "GET /index.html HTTP/1.1");
    assert_eq!(parts.response_status, "200");
    assert_eq!(parts.response_bytes, "5120");
    assert_eq!(parts.response_time_ms, "37");
    assert_eq!(parts.referer, "https://example.com/");
    assert_eq!(parts.user_agent, "Mozilla/5.0 (X11; Linux)");
    assert_eq!(parts.to_string(), LINE);
}

#[test]
fn spaces_before_parts_are_passed_over() {
    let line = "   [t]   host   \"r q\"   1   2   3   \"ref\"   \"agent\"   rest";
    let parts = AccessLogLineParts::parse(line).ok().unwrap();
    assert_eq!(parts.time, "t");
    assert_eq!(parts.remote_host, "host");
    assert_eq!(parts.request, "r q");
    assert_eq!(parts.response_status, "1");
    assert_eq!(parts.response_bytes, "2");
    assert_eq!(parts.response_time_ms, "3");
    assert_eq!(parts.referer, "ref");
    assert_eq!(parts.user_agent, "agent");
    assert_eq!(parts.to_string(), "[t] host \"r q\" 1 2 3 \"ref\" \"agent\"");
}

#[test]
fn characters_outside_ascii() {
    let line = "[zeit] wirt \"GET /grüße\" 200 1 2 \"-\" \"Größe 漢字\"";
    let parts = AccessLogLineParts::parse(line).ok().unwrap();
    assert_eq!(parts.request, "GET /grüße");
    assert_eq!(parts.user_agent, "Größe 漢字");
}

fn error_of(line: &str) -> Option<ParseError> {
    AccessLogLineParts::parse(line).err()
}

#[test]
fn the_first_missing_part_is_named() {
    assert_eq!(error_of(""), Some(ParseError::TimeBracketsNotFound));
    assert_eq!(error_of("x [t] h"), Some(ParseError::TimeBracketsNotFound));
    assert_eq!(error_of("[t"), Some(ParseError::TimeBracketsNotFound));
    assert_eq!(error_of("[t]"), Some(ParseError::RemoteHostNotFound));
    assert_eq!(error_of("[t] host"), Some(ParseError::RemoteHostNotFound));
    assert_eq!(error_of("[t] host "), Some(ParseError::RequestNotFound));
    assert_eq!(error_of("[t] host GET"), Some(ParseError::RequestNotFound));
    assert_eq!(error_of("[t] host \"GET"), Some(ParseError::RequestNotFound));
    assert_eq!(error_of("[t] host \"GET\""), Some(ParseError::ResponseStatusNotFound));
    assert_eq!(error_of("[t] host \"GET\" 200"), Some(ParseError::ResponseStatusNotFound));
    assert_eq!(error_of("[t] host \"GET\" 200 "), Some(ParseError::ResponseBytesNotFound));
    assert_eq!(error_of("[t] host \"GET\" 200 1"), Some(ParseError::ResponseBytesNotFound));
    assert_eq!(error_of("[t] host \"GET\" 200 1 "), Some(ParseError::ResponseTimeNotFound));
    assert_eq!(error_of("[t] host \"GET\" 200 1 2"), Some(ParseError::ResponseTimeNotFound));
    assert_eq!(error_of("[t] host \"GET\" 200 1 2 "), Some(ParseError::RefererNotFound));
    assert_eq!(error_of("[t] host \"GET\" 200 1 2 \"ref"), Some(ParseError::RefererNotFound));
    assert_eq!(error_of("[t] host \"GET\" 200 1 2 \"ref\""), Some(ParseError::UserAgentNotFound));
    assert_eq!(error_of("[t] host \"GET\" 200 1 2 \"ref\" agent"), Some(ParseError::UserAgentNotFound));
    assert_eq!(error_of("[t] host \"GET\" 200 1 2 \"ref\" \"agent\""), None);
}

#[test]
fn parts_that_end_with_a_space() {
    assert_eq!(next_space_delimited_part("  abc def ghi"), Some(("abc", "def ghi")));
    assert_eq!(next_space_delimited_part("abc "), Some(("abc", "")));
    assert_eq!(next_space_delimited_part("abc"), None);
    assert_eq!(next_space_delimited_part("   "), None);
    assert_eq!(next_space_delimited_part(""), None);
    assert_eq!(next_space_delimited_part("a  b"), Some(("a", " b")));
}

#[test]
fn parts_between_two_characters() {
    assert_eq!(extract_between_chars("  [a b] c", '[', ']'), Some(("a b", " c")));
    assert_eq!(extract_between_chars("\"\"", '"', '"'), Some(("", "")));
    assert_eq!(extract_between_chars("\"a\"b\"", '"', '"'), Some(("a", "b\"")));
    assert_eq!(extract_between_chars("x[a]", '[', ']'), None);
    assert_eq!(extract_between_chars("[a", '[', ']'), None);
    assert_eq!(extract_between_chars("", '[', ']'), None);
    assert_eq!(extract_between_chars("   ", '[', ']'), None);
    assert_eq!(extract_between_chars("[a»", '[', '»'), Some(("a", "")));
}

#[test]
fn a_left_side_of_more_than_one_byte_is_never_found() {
    assert_eq!(extract_between_chars("«a»", '«', '»'), None);
}
