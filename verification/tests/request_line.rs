use web_server::error::HttpError;
use web_server::request::{is_whitespace, parse_header, token_spans, RequestLine};
use web_server::text::collect_chars;

fn words(line: &str) -> Vec<String> {
    let chars = collect_chars(line);
    token_spans(&chars)
        .into_iter()
        .map(|(from, to)| chars[from..to].iter().collect::<String>())
        .collect()
}

fn request(method: &str, path: &str, protocol: &str) -> RequestLine {
    RequestLine {
        method: method.to_string(),
        path: path.to_string(),
        protocol: protocol.to_string(),
    }
}

fn invalid_request() -> HttpError {
    HttpError::BadRequest("Invalid request".to_string())
}

#[test]
fn whitespace_is_what_std_calls_whitespace() {
    let mut c = '\0';
    loop {
        assert_eq!(is_whitespace(c), c.is_whitespace(), "U+{:04X}", c as u32);
        if c == char::MAX {
            break;
        }
        c = match char::from_u32(c as u32 + 1) {
            Some(next) => next,
            None => '\u{E000}',
        };
    }
}

#[test]
fn whitespace_samples() {
    for c in [' ', '\t', '\n', '\r', '\u{0B}', '\u{0C}', '\u{85}', '\u{A0}', '\u{1680}'] {
        assert!(is_whitespace(c));
    }
    for c in ['\u{2000}', '\u{200A}', '\u{2028}', '\u{2029}', '\u{202F}', '\u{205F}', '\u{3000}'] {
        assert!(is_whitespace(c));
    }
    for c in ['a', '/', '.', '\0', '\u{08}', '\u{0E}', '\u{200B}', '\u{1FFF}', '\u{FEFF}'] {
        assert!(!is_whitespace(c));
    }
}

#[test]
fn collect_chars_keeps_every_character() {
    assert_eq!(collect_chars(""), Vec::<char>::new());
    assert_eq!(collect_chars("a/b"), vec!['a', '/', 'b']);
    assert_eq!(collect_chars("é\u{3000}猫"), vec!['é', '\u{3000}', '猫']);
}

#[test]
fn spans_of_a_request_line() {
    let chars = collect_chars("GET /index.html HTTP/1.1\r\n");
    assert_eq!(token_spans(&chars), vec![(0, 3), (4, 15), (16, 24)]);
}

#[test]
fn spans_count_characters_not_bytes() {
    let chars = collect_chars("é\u{3000}猫猫 x");
    assert_eq!(token_spans(&chars), vec![(0, 1), (2, 4), (5, 6)]);
}

#[test]
fn spans_of_nothing() {
    assert_eq!(token_spans(&[]), vec![]);
    assert_eq!(token_spans(&collect_chars(" \t\r\n")), vec![]);
}

#[test]
fn tokens_are_those_of_split_whitespace() {
    let lines = [
        "",
        " ",
        "GET / HTTP/1.1\r\n",
        "  GET   /a/b.txt\tHTTP/1.0  ",
        "one",
        "one two",
        "a b c d e f",
        "\u{A0}GET\u{2003}/\u{3000}HTTP/1.1\u{85}",
        "tab\tseparated\twords\n",
        "x\u{200B}y z",
    ];
    for line in lines {
        let expected: Vec<String> = line.split_whitespace().map(|w| w.to_string()).collect();
        assert_eq!(words(line), expected, "{:?}", line);
    }
}

#[test]
fn three_tokens_are_a_request_line() {
    assert_eq!(
        parse_header("GET /index.html HTTP/1.1\r\n"),
        Ok(request("GET", "/index.html", "HTTP/1.1"))
    );
}

#[test]
fn method_and_protocol_are_taken_as_they_are() {
    assert_eq!(parse_header("frobnicate / nonsense"), Ok(request("frobnicate", "/", "nonsense")));
}

#[test]
fn whitespace_around_the_tokens_is_dropped() {
    assert_eq!(
        parse_header(" \t GET \u{3000} /a%20b \r HTTP/1.1 \n"),
        Ok(request("GET", "/a%20b", "HTTP/1.1"))
    );
}

#[test]
fn tokens_may_hold_any_other_character() {
    assert_eq!(parse_header("GÉT /猫.html ☃"), Ok(request("GÉT", "/猫.html", "☃")));
}

#[test]
fn an_empty_line_is_invalid() {
    assert_eq!(parse_header(""), Err(invalid_request()));
    assert_eq!(parse_header("\r\n"), Err(invalid_request()));
}

#[test]
fn one_or_two_tokens_are_invalid() {
    assert_eq!(parse_header("GET\r\n"), Err(invalid_request()));
    assert_eq!(parse_header("GET /index.html\r\n"), Err(invalid_request()));
}

#[test]
fn four_tokens_are_invalid() {
    assert_eq!(parse_header("GET /index.html HTTP/1.1 extra\r\n"), Err(invalid_request()));
    assert_eq!(parse_header("GET /my file.html HTTP/1.1\r\n"), Err(invalid_request()));
}
