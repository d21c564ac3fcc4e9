use web_server::error::{frame, ErrorKind, HttpError};

#[test]
fn status_codes() {
    assert_eq!(ErrorKind::BadRequest.status_code(), 400);
    assert_eq!(ErrorKind::NotFound.status_code(), 404);
    assert_eq!(ErrorKind::InternalServerError.status_code(), 500);
}

#[test]
fn reason_phrases() {
    assert_eq!(ErrorKind::BadRequest.reason_phrase(), "Bad Request");
    assert_eq!(ErrorKind::NotFound.reason_phrase(), "Not Found");
    assert_eq!(ErrorKind::InternalServerError.reason_phrase(), "Internal Server Error");
}

#[test]
fn status_lines() {
    assert_eq!(ErrorKind::BadRequest.status_line(), "HTTP/1.1 400 Bad Request");
    assert_eq!(ErrorKind::NotFound.status_line(), "HTTP/1.1 404 Not Found");
    assert_eq!(ErrorKind::InternalServerError.status_line(), "HTTP/1.1 500 Internal Server Error");
}

#[test]
fn status_line_holds_code_and_reason() {
    for kind in [ErrorKind::BadRequest, ErrorKind::NotFound, ErrorKind::InternalServerError] {
        assert_eq!(
            kind.status_line(),
            format!("HTTP/1.1 {} {}", kind.status_code(), kind.reason_phrase())
        );
    }
}

#[test]
fn error_knows_its_kind_and_message() {
    let e = HttpError::BadRequest("Invalid path".to_string());
    assert_eq!(e.kind(), ErrorKind::BadRequest);
    assert_eq!(e.message(), "Invalid path");
    let e = HttpError::NotFound("Page Not Found".to_string());
    assert_eq!(e.kind(), ErrorKind::NotFound);
    assert_eq!(e.message(), "Page Not Found");
    let e = HttpError::InternalServerError("disk on fire".to_string());
    assert_eq!(e.kind(), ErrorKind::InternalServerError);
    assert_eq!(e.message(), "disk on fire");
}

#[test]
fn frame_puts_a_blank_line_before_the_body() {
    assert_eq!(frame("HTTP/1.1 200 OK", b"<h1>Hi</h1>"), b"HTTP/1.1 200 OK\r\n\r\n<h1>Hi</h1>");
}

#[test]
fn frame_takes_any_bytes_and_no_bytes() {
    assert_eq!(frame("S", &[0, 255, 13, 10]), vec![b'S', 13, 10, 13, 10, 0, 255, 13, 10]);
    assert_eq!(frame("S", &[]), b"S\r\n\r\n");
    assert_eq!(frame("", &[]), b"\r\n\r\n");
}

#[test]
fn bad_request_response() {
    assert_eq!(
        HttpError::BadRequest("Invalid request".to_string()).response(),
        b"HTTP/1.1 400 Bad Request\r\n\r\nInvalid request"
    );
}

#[test]
fn not_found_response() {
    assert_eq!(
        HttpError::NotFound("Page Not Found".to_string()).response(),
        b"HTTP/1.1 404 Not Found\r\n\r\nPage Not Found"
    );
}

#[test]
fn internal_server_error_response() {
    assert_eq!(
        HttpError::InternalServerError("permission denied".to_string()).response(),
        b"HTTP/1.1 500 Internal Server Error\r\n\r\npermission denied"
    );
}

#[test]
fn response_message_is_sent_as_utf8() {
    assert_eq!(
        HttpError::InternalServerError("accès refusé".to_string()).response(),
        "HTTP/1.1 500 Internal Server Error\r\n\r\naccès refusé".as_bytes()
    );
}

#[test]
fn response_with_an_empty_message() {
    assert_eq!(
        HttpError::BadRequest(String::new()).response(),
        b"HTTP/1.1 400 Bad Request\r\n\r\n"
    );
}

#[test]
fn reports() {
    assert_eq!(
        HttpError::BadRequest("Invalid path".to_string()).report(),
        "Bad Request: Invalid path"
    );
    assert_eq!(
        HttpError::NotFound("Page Not Found".to_string()).report(),
        "Not Found: Page Not Found"
    );
    assert_eq!(
        HttpError::InternalServerError("broken pipe".to_string()).report(),
        "Internal Server Error: broken pipe"
    );
}
