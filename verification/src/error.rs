//! The failures of a request, and the bytes that answer them.

use vstd::prelude::*;
use vstd::utf8::encode_utf8;

verus! {

/// The three ways in which a request can fail.
#[derive(Debug, Clone, Copy, PartialEq, Eq, Structural)]
pub enum ErrorKind {
    BadRequest,
    NotFound,
    InternalServerError,
}

impl ErrorKind {
    /// The status code that answers a failure of this kind.
    pub open spec fn code(self) -> nat {
        match self {
            ErrorKind::BadRequest => 400,
            ErrorKind::NotFound => 404,
            ErrorKind::InternalServerError => 500,
        }
    }

    /// The reason phrase that goes with the status code.
    pub open spec fn reason(self) -> Seq<char> {
        match self {
            ErrorKind::BadRequest => "Bad Request"@,
            ErrorKind::NotFound => "Not Found"@,
            ErrorKind::InternalServerError => "Internal Server Error"@,
        }
    }

    /// The status line of the response, without its line ending.
    pub open spec fn line(self) -> Seq<char> {
        match self {
            ErrorKind::BadRequest => "HTTP/1.1 400 Bad Request"@,
            ErrorKind::NotFound => "HTTP/1.1 404 Not Found"@,
            ErrorKind::InternalServerError => "HTTP/1.1 500 Internal Server Error"@,
        }
    }

    pub fn status_code(self) -> (code: u16)
        ensures
            code == self.code(),
    {
        match self {
            ErrorKind::BadRequest => 400,
            ErrorKind::NotFound => 404,
            ErrorKind::InternalServerError => 500,
        }
    }

    pub fn reason_phrase(self) -> (reason: &'static str)
        ensures
            reason@ == self.reason(),
    {
        match self {
            ErrorKind::BadRequest => "Bad Request",
            ErrorKind::NotFound => "Not Found",
            ErrorKind::InternalServerError => "Internal Server Error",
        }
    }

    pub fn status_line(self) -> (line: &'static str)
        ensures
            line@ == self.line(),
    {
        match self {
            ErrorKind::BadRequest => "HTTP/1.1 400 Bad Request",
            ErrorKind::NotFound => "HTTP/1.1 404 Not Found",
            ErrorKind::InternalServerError => "HTTP/1.1 500 Internal Server Error",
        }
    }
}

/// The character for a digit.
pub open spec fn digit(d: nat) -> char
    recommends
        d < 10,
{
    if d == 0 {
        '0'
    } else if d == 1 {
        '1'
    } else if d == 2 {
        '2'
    } else if d == 3 {
        '3'
    } else if d == 4 {
        '4'
    } else if d == 5 {
        '5'
    } else if d == 6 {
        '6'
    } else if d == 7 {
        '7'
    } else if d == 8 {
        '8'
    } else {
        '9'
    }
}

/// A status code in its three digits.
pub open spec fn decimal(code: nat) -> Seq<char>
    recommends
        100 <= code < 1000,
{
    seq![digit(code / 100), digit(code / 10 % 10), digit(code % 10)]
}

/// The status line is the protocol version, the status code and the reason
/// phrase, with one space between them.
pub proof fn lemma_status_line(kind: ErrorKind)
    ensures
        kind.line() == "HTTP/1.1"@ + " "@ + decimal(kind.code()) + " "@ + kind.reason(),
{
    reveal_strlit("HTTP/1.1");
    reveal_strlit(" ");
    reveal_strlit("Bad Request");
    reveal_strlit("Not Found");
    reveal_strlit("Internal Server Error");
    reveal_strlit("HTTP/1.1 400 Bad Request");
    reveal_strlit("HTTP/1.1 404 Not Found");
    reveal_strlit("HTTP/1.1 500 Internal Server Error");
    assert(kind.line() =~= "HTTP/1.1"@ + " "@ + decimal(kind.code()) + " "@ + kind.reason());
}

/// A failed request: its kind, and a message for the client.
#[derive(Debug, PartialEq, Eq)]
pub enum HttpError {
    BadRequest(String),
    NotFound(String),
    InternalServerError(String),
}

/// An [`HttpError`] as a plain value.
pub struct HttpErrorView {
    pub kind: ErrorKind,
    pub message: Seq<char>,
}

impl View for HttpError {
    type V = HttpErrorView;

    open spec fn view(&self) -> HttpErrorView {
        match self {
            HttpError::BadRequest(m) => HttpErrorView { kind: ErrorKind::BadRequest, message: m@ },
            HttpError::NotFound(m) => HttpErrorView { kind: ErrorKind::NotFound, message: m@ },
            HttpError::InternalServerError(m) => HttpErrorView {
                kind: ErrorKind::InternalServerError,
                message: m@,
            },
        }
    }
}

/// A result that may hold an [`HttpError`], as a plain value.
pub open spec fn result_view<T: View>(r: Result<T, HttpError>) -> Result<T::V, HttpErrorView> {
    match r {
        Ok(value) => Ok(value@),
        Err(e) => Err(e@),
    }
}

/// The separator between the status line and the body.
pub open spec fn head_end() -> Seq<char> {
    "\r\n\r\n"@
}

/// The bytes of a response: the status line, a blank line, then the body.
/// No header stands between them.
pub open spec fn framed(status_line: Seq<char>, body: Seq<u8>) -> Seq<u8> {
    encode_utf8(status_line) + encode_utf8(head_end()) + body
}

/// The line that reports a failed request to whoever runs the handler: the
/// reason phrase, a colon and the message.
pub open spec fn error_report(e: HttpErrorView) -> Seq<char> {
    e.kind.reason() + ": "@ + e.message
}

/// The bytes that answer a failed request: its status line, a blank line
/// and its message.
pub open spec fn error_response(e: HttpErrorView) -> Seq<u8> {
    framed(e.kind.line(), encode_utf8(e.message))
}

/// Puts a status line, a blank line and a body together.
pub fn frame(status_line: &str, body: &[u8]) -> (bytes: Vec<u8>)
    ensures
        bytes@ == framed(status_line@, body@),
{
    let mut bytes = status_line.as_bytes_vec();
    bytes.extend_from_slice("\r\n\r\n".as_bytes());
    bytes.extend_from_slice(body);
    bytes
}

impl HttpError {
    pub fn kind(&self) -> (kind: ErrorKind)
        ensures
            kind == self@.kind,
    {
        match self {
            HttpError::BadRequest(_) => ErrorKind::BadRequest,
            HttpError::NotFound(_) => ErrorKind::NotFound,
            HttpError::InternalServerError(_) => ErrorKind::InternalServerError,
        }
    }

    pub fn message(&self) -> (message: &str)
        ensures
            message@ == self@.message,
    {
        match self {
            HttpError::BadRequest(m) => m.as_str(),
            HttpError::NotFound(m) => m.as_str(),
            HttpError::InternalServerError(m) => m.as_str(),
        }
    }

    /// The line to report the failure with.
    pub fn report(&self) -> (line: String)
        ensures
            line@ == error_report(self@),
    {
        let mut line = self.kind().reason_phrase().to_owned();
        line.append(": ");
        line.append(self.message());
        line
    }

    /// The bytes to send to the client.
    pub fn response(&self) -> (bytes: Vec<u8>)
        ensures
            bytes@ == error_response(self@),
    {
        frame(self.kind().status_line(), self.message().as_bytes())
    }
}

} // verus!
