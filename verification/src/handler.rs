//! The handling of one connection, as a state machine: the caller performs
//! each [`Action`] and hands its outcome back as an [`Event`].

use crate::error::{error_response, ErrorKind, HttpError, HttpErrorView};
use crate::server::{resolution, Server};
use vstd::prelude::*;
use vstd::utf8::encode_utf8;

verus! {

/// What came of the operation that the handler asked for.
#[derive(Debug, PartialEq, Eq)]
pub enum Event {
    /// A line was read from the connection.
    Line(String),
    /// The file was read: its bytes.
    File(Vec<u8>),
    /// There is no such file.
    Missing,
    /// A write or a flush went through.
    Done,
    /// The operation failed: the cause, in words.
    Failed(String),
}

/// What the handler asks for next.
#[derive(Debug, PartialEq, Eq)]
pub enum Action {
    /// Read one line from the connection.
    ReadLine,
    /// Read the file of this name.
    ReadFile(String),
    /// Write these bytes to the connection.
    Write(Vec<u8>),
    /// Flush the connection.
    Flush,
    /// Close the connection. The request was served, or failed with the
    /// error given.
    Close(Result<(), HttpError>),
    /// Nothing: the event did not answer what the handler waits for.
    Idle,
}

/// Where the handling of one connection stands. Each state but `Closed`
/// waits for the outcome of one operation.
#[derive(Debug, PartialEq, Eq)]
pub enum Handler {
    /// Waits for the request line.
    ReadingRequestLine,
    /// Waits for the file's bytes.
    ReadingFile,
    /// Waits for the status line of a success to be written; holds the body
    /// that follows it.
    WritingStatusLine(Vec<u8>),
    /// Waits for the body to be written.
    WritingBody,
    /// Waits for the flush that ends a success.
    FlushingResponse,
    /// Waits for the response to a failed request to be written.
    WritingErrorResponse(HttpError),
    /// Waits for the flush that ends the response to a failed request.
    FlushingErrorResponse(HttpError),
    /// The connection is closed.
    Closed,
}

/// An [`Event`] as a plain value.
pub enum EventView {
    Line(Seq<char>),
    File(Seq<u8>),
    Missing,
    Done,
    Failed(Seq<char>),
}

/// An [`Action`] as a plain value.
pub enum ActionView {
    ReadLine,
    ReadFile(Seq<char>),
    Write(Seq<u8>),
    Flush,
    Close(Result<(), HttpErrorView>),
    Idle,
}

/// A [`Handler`] as a plain value.
pub enum HandlerView {
    ReadingRequestLine,
    ReadingFile,
    WritingStatusLine(Seq<u8>),
    WritingBody,
    FlushingResponse,
    WritingErrorResponse(HttpErrorView),
    FlushingErrorResponse(HttpErrorView),
    Closed,
}

impl View for Event {
    type V = EventView;

    open spec fn view(&self) -> EventView {
        match self {
            Event::Line(line) => EventView::Line(line@),
            Event::File(bytes) => EventView::File(bytes@),
            Event::Missing => EventView::Missing,
            Event::Done => EventView::Done,
            Event::Failed(cause) => EventView::Failed(cause@),
        }
    }
}

impl View for Action {
    type V = ActionView;

    open spec fn view(&self) -> ActionView {
        match self {
            Action::ReadLine => ActionView::ReadLine,
            Action::ReadFile(name) => ActionView::ReadFile(name@),
            Action::Write(bytes) => ActionView::Write(bytes@),
            Action::Flush => ActionView::Flush,
            Action::Close(Ok(_)) => ActionView::Close(Ok(())),
            Action::Close(Err(e)) => ActionView::Close(Err(e@)),
            Action::Idle => ActionView::Idle,
        }
    }
}

impl View for Handler {
    type V = HandlerView;

    open spec fn view(&self) -> HandlerView {
        match self {
            Handler::ReadingRequestLine => HandlerView::ReadingRequestLine,
            Handler::ReadingFile => HandlerView::ReadingFile,
            Handler::WritingStatusLine(body) => HandlerView::WritingStatusLine(body@),
            Handler::WritingBody => HandlerView::WritingBody,
            Handler::FlushingResponse => HandlerView::FlushingResponse,
            Handler::WritingErrorResponse(e) => HandlerView::WritingErrorResponse(e@),
            Handler::FlushingErrorResponse(e) => HandlerView::FlushingErrorResponse(e@),
            Handler::Closed => HandlerView::Closed,
        }
    }
}

/// The head of a success: the status line and the blank line after it.
pub open spec fn success_head() -> Seq<u8> {
    encode_utf8("HTTP/1.1 200 OK\r\n\r\n"@)
}

/// The step that starts the response to a failed request.
pub open spec fn fail(e: HttpErrorView) -> (HandlerView, ActionView) {
    (HandlerView::WritingErrorResponse(e), ActionView::Write(error_response(e)))
}

/// The step that ends the handling of a connection.
pub open spec fn close(outcome: Result<(), HttpErrorView>) -> (HandlerView, ActionView) {
    (HandlerView::Closed, ActionView::Close(outcome))
}

/// The state that follows `state` on `event`, and what the handler asks
/// for then, where the server's document root is `root`.
///
/// A failure before any byte of a success is written is answered with an
/// error response. Once the status line of a success is out, a failed write
/// or flush ends the connection and the request still counts as served. An
/// event that does not answer the operation that the state waits for
/// changes nothing.
pub open spec fn next(root: Seq<char>, state: HandlerView, event: EventView) -> (
    HandlerView,
    ActionView,
) {
    match (state, event) {
        (HandlerView::ReadingRequestLine, EventView::Line(line)) => match resolution(root, line) {
            Ok(name) => (HandlerView::ReadingFile, ActionView::ReadFile(name)),
            Err(e) => fail(e),
        },
        (HandlerView::ReadingRequestLine, EventView::Failed(cause)) => fail(
            HttpErrorView { kind: ErrorKind::BadRequest, message: cause },
        ),
        (HandlerView::ReadingFile, EventView::File(bytes)) => (
            HandlerView::WritingStatusLine(bytes),
            ActionView::Write(success_head()),
        ),
        (HandlerView::ReadingFile, EventView::Missing) => fail(
            HttpErrorView { kind: ErrorKind::NotFound, message: "Page Not Found"@ },
        ),
        (HandlerView::ReadingFile, EventView::Failed(cause)) => fail(
            HttpErrorView { kind: ErrorKind::InternalServerError, message: cause },
        ),
        (HandlerView::WritingStatusLine(body), EventView::Done) => (
            HandlerView::WritingBody,
            ActionView::Write(body),
        ),
        (HandlerView::WritingStatusLine(_), EventView::Failed(cause)) => fail(
            HttpErrorView { kind: ErrorKind::BadRequest, message: cause },
        ),
        (HandlerView::WritingBody, EventView::Done) => (
            HandlerView::FlushingResponse,
            ActionView::Flush,
        ),
        (HandlerView::WritingBody, EventView::Failed(_)) => close(Ok(())),
        (HandlerView::FlushingResponse, EventView::Done) => close(Ok(())),
        (HandlerView::FlushingResponse, EventView::Failed(_)) => close(Ok(())),
        (HandlerView::WritingErrorResponse(e), EventView::Done) => (
            HandlerView::FlushingErrorResponse(e),
            ActionView::Flush,
        ),
        (HandlerView::WritingErrorResponse(e), EventView::Failed(_)) => close(Err(e)),
        (HandlerView::FlushingErrorResponse(e), EventView::Done) => close(Err(e)),
        (HandlerView::FlushingErrorResponse(_), EventView::Failed(cause)) => close(
            Err(HttpErrorView { kind: ErrorKind::InternalServerError, message: cause }),
        ),
        _ => (state, ActionView::Idle),
    }
}

/// Starts the response to a failed request.
fn respond_with(e: HttpError) -> (step: (Handler, Action))
    ensures
        (step.0@, step.1@) == fail(e@),
{
    let bytes = e.response();
    (Handler::WritingErrorResponse(e), Action::Write(bytes))
}

impl Handler {
    /// The state of a connection that was just accepted, and the first
    /// thing to do on it.
    pub fn start() -> (step: (Handler, Action))
        ensures
            step.0@ == HandlerView::ReadingRequestLine,
            step.1@ == ActionView::ReadLine,
    {
        (Handler::ReadingRequestLine, Action::ReadLine)
    }

    /// Whether the connection is closed.
    pub fn is_closed(&self) -> (closed: bool)
        ensures
            closed == (self@ == HandlerView::Closed),
    {
        match self {
            Handler::Closed => true,
            _ => false,
        }
    }

    /// Takes the outcome of the operation that was asked for last, and says
    /// what to do next.
    pub fn step(self, server: &Server, event: Event) -> (step: (Handler, Action))
        ensures
            (step.0@, step.1@) == next(server@.document_root, self@, event@),
    {
        match (self, event) {
            (Handler::ReadingRequestLine, Event::Line(line)) => match server.resolve(
                line.as_str(),
            ) {
                Ok(name) => (Handler::ReadingFile, Action::ReadFile(name)),
                Err(e) => respond_with(e),
            },
            (Handler::ReadingRequestLine, Event::Failed(cause)) => respond_with(
                HttpError::BadRequest(cause),
            ),
            (Handler::ReadingFile, Event::File(bytes)) => (
                Handler::WritingStatusLine(bytes),
                Action::Write("HTTP/1.1 200 OK\r\n\r\n".as_bytes_vec()),
            ),
            (Handler::ReadingFile, Event::Missing) => respond_with(
                HttpError::NotFound("Page Not Found".to_owned()),
            ),
            (Handler::ReadingFile, Event::Failed(cause)) => respond_with(
                HttpError::InternalServerError(cause),
            ),
            (Handler::WritingStatusLine(body), Event::Done) => (
                Handler::WritingBody,
                Action::Write(body),
            ),
            (Handler::WritingStatusLine(_), Event::Failed(cause)) => respond_with(
                HttpError::BadRequest(cause),
            ),
            (Handler::WritingBody, Event::Done) => (Handler::FlushingResponse, Action::Flush),
            (Handler::WritingBody, Event::Failed(_)) => (Handler::Closed, Action::Close(Ok(()))),
            (Handler::FlushingResponse, Event::Done) => (Handler::Closed, Action::Close(Ok(()))),
            (Handler::FlushingResponse, Event::Failed(_)) => (
                Handler::Closed,
                Action::Close(Ok(())),
            ),
            (Handler::WritingErrorResponse(e), Event::Done) => (
                Handler::FlushingErrorResponse(e),
                Action::Flush,
            ),
            (Handler::WritingErrorResponse(e), Event::Failed(_)) => (
                Handler::Closed,
                Action::Close(Err(e)),
            ),
            (Handler::FlushingErrorResponse(e), Event::Done) => (
                Handler::Closed,
                Action::Close(Err(e)),
            ),
            (Handler::FlushingErrorResponse(_), Event::Failed(cause)) => (
                Handler::Closed,
                Action::Close(Err(HttpError::InternalServerError(cause))),
            ),
            (state, _) => (state, Action::Idle),
        }
    }
}

} // verus!
