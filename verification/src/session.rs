//! What a connection amounts to as a whole: the reply that a client gets for
//! a request line, and what holds of every run of the handler.

use crate::error::{error_response, ErrorKind, HttpErrorView};
use crate::handler::{next, success_head, ActionView, EventView, HandlerView};
use crate::request::tokens;
use crate::server::{resolution, resolved, traverses};
use vstd::prelude::*;

verus! {

/// The actions that the handler asks for, one for each event, when it
/// starts in `state` and is given `events` in turn.
pub open spec fn run(root: Seq<char>, state: HandlerView, events: Seq<EventView>) -> Seq<
    ActionView,
>
    decreases events.len(),
{
    if events.len() == 0 {
        Seq::empty()
    } else {
        let (after, action) = next(root, state, events[0]);
        seq![action] + run(root, after, events.drop_first())
    }
}

/// What reading a file of a given name comes to.
pub enum Lookup {
    Found(Seq<u8>),
    Missing,
    Failed(Seq<char>),
}

/// The outcome of `action` on a connection that delivers `line` and takes
/// every write and flush, beside a file system that answers with `files`.
pub open spec fn outcome(
    line: Seq<char>,
    files: spec_fn(Seq<char>) -> Lookup,
    action: ActionView,
) -> EventView {
    match action {
        ActionView::ReadLine => EventView::Line(line),
        ActionView::ReadFile(name) => match files(name) {
            Lookup::Found(bytes) => EventView::File(bytes),
            Lookup::Missing => EventView::Missing,
            Lookup::Failed(cause) => EventView::Failed(cause),
        },
        _ => EventView::Done,
    }
}

/// The bytes that the client receives from a handler in `state` that has
/// just asked for `action`, within `steps` steps: each action is carried
/// out, and its outcome handed back, until the handler closes the
/// connection.
pub open spec fn received(
    root: Seq<char>,
    line: Seq<char>,
    files: spec_fn(Seq<char>) -> Lookup,
    state: HandlerView,
    action: ActionView,
    steps: nat,
) -> Seq<u8>
    decreases steps,
{
    if steps == 0 {
        Seq::empty()
    } else {
        match action {
            ActionView::Close(_) => Seq::empty(),
            ActionView::Idle => Seq::empty(),
            _ => {
                let sent = match action {
                    ActionView::Write(bytes) => bytes,
                    _ => Seq::empty(),
                };
                let (after, then) = next(root, state, outcome(line, files, action));
                sent + received(root, line, files, after, then, (steps - 1) as nat)
            },
        }
    }
}

/// The response to a request line: the file that the line asks for, after
/// the head of a success, or the response to the error that the line or
/// the file system gives.
pub open spec fn reply(root: Seq<char>, line: Seq<char>, files: spec_fn(Seq<char>) -> Lookup) -> Seq<
    u8,
> {
    match resolution(root, line) {
        Err(e) => error_response(e),
        Ok(name) => match files(name) {
            Lookup::Found(bytes) => success_head() + bytes,
            Lookup::Missing => error_response(
                HttpErrorView { kind: ErrorKind::NotFound, message: "Page Not Found"@ },
            ),
            Lookup::Failed(cause) => error_response(
                HttpErrorView { kind: ErrorKind::InternalServerError, message: cause },
            ),
        },
    }
}

/// A handler that is left to work on a sound connection sends the reply to
/// the request line, whole and once, and nothing else. Five steps are enough
/// for it.
pub proof fn lemma_handler_sends_reply(
    root: Seq<char>,
    line: Seq<char>,
    files: spec_fn(Seq<char>) -> Lookup,
    steps: nat,
)
    requires
        steps >= 5,
    ensures
        received(
            root,
            line,
            files,
            HandlerView::ReadingRequestLine,
            ActionView::ReadLine,
            steps,
        ) == reply(root, line, files),
{
    reveal_with_fuel(received, 7);
    assert(received(
        root,
        line,
        files,
        HandlerView::ReadingRequestLine,
        ActionView::ReadLine,
        steps,
    ) =~= reply(root, line, files));
}

/// Only the request line makes the handler read a file: once it has left its
/// first state, it asks for none, whatever the events.
pub proof fn lemma_reads_follow_the_line(
    root: Seq<char>,
    state: HandlerView,
    events: Seq<EventView>,
)
    requires
        state != HandlerView::ReadingRequestLine,
    ensures
        run(root, state, events).len() == events.len(),
        forall|k: int|
            0 <= k < events.len() ==> !(#[trigger] run(root, state, events)[k] is ReadFile),
    decreases events.len(),
{
    if events.len() > 0 {
        let (after, action) = next(root, state, events[0]);
        lemma_reads_follow_the_line(root, after, events.drop_first());
        let rest = run(root, after, events.drop_first());
        assert forall|k: int| 0 <= k < events.len() implies !(#[trigger] run(
            root,
            state,
            events,
        )[k] is ReadFile) by {
            if k > 0 {
                assert(run(root, state, events)[k] == rest[k - 1]);
            }
        }
    }
}

/// A request line whose path holds two dots in a row is answered with the
/// status 400 and the message `Invalid path`, and no file is read on its
/// connection, whatever happens there afterwards.
pub proof fn lemma_traversal_is_refused(
    root: Seq<char>,
    line: Seq<char>,
    files: spec_fn(Seq<char>) -> Lookup,
    events: Seq<EventView>,
)
    requires
        tokens(line).len() == 3,
        traverses(tokens(line)[1]),
    ensures
        reply(root, line, files) == error_response(
            HttpErrorView { kind: ErrorKind::BadRequest, message: "Invalid path"@ },
        ),
        forall|k: int|
            0 <= k <= events.len() ==> !(#[trigger] run(
                root,
                HandlerView::ReadingRequestLine,
                seq![EventView::Line(line)] + events,
            )[k] is ReadFile),
{
    let e = HttpErrorView { kind: ErrorKind::BadRequest, message: "Invalid path"@ };
    let all = seq![EventView::Line(line)] + events;
    assert(all.drop_first() =~= events);
    lemma_reads_follow_the_line(root, HandlerView::WritingErrorResponse(e), events);
    let rest = run(root, HandlerView::WritingErrorResponse(e), events);
    assert forall|k: int| 0 <= k <= events.len() implies !(#[trigger] run(
        root,
        HandlerView::ReadingRequestLine,
        all,
    )[k] is ReadFile) by {
        if k > 0 {
            assert(run(root, HandlerView::ReadingRequestLine, all)[k] == rest[k - 1]);
        }
    }
}

/// A request for `/` and a request for `/index.html` get the same reply.
/// Where the file is there, the reply is the head of a success and then the
/// file's bytes.
pub proof fn lemma_root_is_index(
    root: Seq<char>,
    first: Seq<char>,
    second: Seq<char>,
    files: spec_fn(Seq<char>) -> Lookup,
)
    requires
        tokens(first).len() == 3,
        tokens(first)[1] == "/"@,
        tokens(second).len() == 3,
        tokens(second)[1] == "/index.html"@,
    ensures
        reply(root, first, files) == reply(root, second, files),
        files(root + "/index.html"@) matches Lookup::Found(bytes) ==> reply(root, first, files)
            == success_head() + bytes,
{
    reveal_strlit("/");
    reveal_strlit("index.html");
    reveal_strlit("/index.html");
    let a = "/"@;
    let b = "/index.html"@;
    assert(resolved(root, a) =~= root + "/index.html"@);
    assert(resolved(root, b) =~= root + "/index.html"@);
}

/// A request for a file that is not there is answered with the status 404
/// and the message `Page Not Found`, and with nothing else.
pub proof fn lemma_missing_file(
    root: Seq<char>,
    line: Seq<char>,
    files: spec_fn(Seq<char>) -> Lookup,
)
    requires
        tokens(line).len() == 3,
        !traverses(tokens(line)[1]),
        files(resolved(root, tokens(line)[1])) is Missing,
    ensures
        reply(root, line, files) == error_response(
            HttpErrorView { kind: ErrorKind::NotFound, message: "Page Not Found"@ },
        ),
{
}

/// A request for a file that is there is answered with the status line of
/// a success, a blank line and the file's bytes as they are.
pub proof fn lemma_existing_file(
    root: Seq<char>,
    line: Seq<char>,
    files: spec_fn(Seq<char>) -> Lookup,
    bytes: Seq<u8>,
)
    requires
        tokens(line).len() == 3,
        !traverses(tokens(line)[1]),
        files(resolved(root, tokens(line)[1])) == Lookup::Found(bytes),
    ensures
        reply(root, line, files) == success_head() + bytes,
{
}

/// A line with fewer or more than three tokens is answered with the status
/// 400 and the message `Invalid request`.
pub proof fn lemma_wrong_token_count(
    root: Seq<char>,
    line: Seq<char>,
    files: spec_fn(Seq<char>) -> Lookup,
)
    requires
        tokens(line).len() != 3,
    ensures
        reply(root, line, files) == error_response(
            HttpErrorView { kind: ErrorKind::BadRequest, message: "Invalid request"@ },
        ),
{
}

} // verus!
