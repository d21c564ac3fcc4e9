//! The server's configuration, and the mapping from request paths to files.

use crate::error::{result_view, ErrorKind, HttpError, HttpErrorView};
use crate::request::{parse_header, parsed_line};
use crate::text::collect_chars;
use vstd::prelude::*;

verus! {

/// Whether `path` holds two dots in a row, at any place.
pub open spec fn traverses(path: Seq<char>) -> bool {
    exists|i: int| 0 <= i && i + 1 < path.len() && path[i] == '.' && #[trigger] path[i + 1] == '.'
}

/// The part of the file's name that follows the document root and its
/// slash: `index.html` for the path `/`, else the path without the slash
/// that leads it.
pub open spec fn relative(path: Seq<char>) -> Seq<char> {
    if path == "/"@ {
        "index.html"@
    } else if path.len() > 0 && path[0] == '/' {
        path.drop_first()
    } else {
        path
    }
}

/// The name of the file that a request path stands for under `root`.
pub open spec fn resolved(root: Seq<char>, path: Seq<char>) -> Seq<char> {
    root + "/"@ + relative(path)
}

/// The file that a request line asks for under `root`, or the error that
/// answers the line.
pub open spec fn resolution(root: Seq<char>, line: Seq<char>) -> Result<Seq<char>, HttpErrorView> {
    match parsed_line(line) {
        Err(e) => Err(e),
        Ok(l) => if traverses(l.path) {
            Err(HttpErrorView { kind: ErrorKind::BadRequest, message: "Invalid path"@ })
        } else {
            Ok(resolved(root, l.path))
        },
    }
}

/// Whether two dots stand next to each other in `chars`.
pub fn has_parent_sequence(chars: &[char]) -> (found: bool)
    ensures
        found == traverses(chars@),
{
    let n = chars.len();
    let mut i: usize = 1;
    while i < n
        invariant
            n == chars@.len(),
            1 <= i,
            forall|j: int| 0 <= j && j + 1 < i && j + 1 < n ==> !(chars@[j] == '.' && #[trigger] chars@[j + 1] == '.'),
        decreases n - i,
    {
        if chars[i - 1] == '.' && chars[i] == '.' {
            assert(chars@[(i - 1) + 1] == '.');
            return true;
        }
        i = i + 1;
    }
    false
}

/// The configuration of a server: where it listens and which directory it
/// serves. It does not change once made.
pub struct Server {
    bind_address: String,
    document_root: String,
}

/// A [`Server`] as a plain value.
pub struct ServerView {
    pub bind_address: Seq<char>,
    pub document_root: Seq<char>,
}

impl View for Server {
    type V = ServerView;

    closed spec fn view(&self) -> ServerView {
        ServerView { bind_address: self.bind_address@, document_root: self.document_root@ }
    }
}

impl Server {
    pub fn new(bind_address: &str, document_root: &str) -> (server: Self)
        ensures
            server@.bind_address == bind_address@,
            server@.document_root == document_root@,
    {
        Self { bind_address: bind_address.to_owned(), document_root: document_root.to_owned() }
    }

    /// The address to listen on, as `host:port`.
    pub fn bind_address(&self) -> (address: &str)
        ensures
            address@ == self@.bind_address,
    {
        self.bind_address.as_str()
    }

    /// The directory under which every served file lies.
    pub fn document_root(&self) -> (root: &str)
        ensures
            root@ == self@.document_root,
    {
        self.document_root.as_str()
    }

    /// Maps a request path to the name of a file under the document root.
    /// A path with two dots in a row is refused, whatever the directories
    /// hold: nothing else keeps a request inside the document root.
    pub fn parse_path(&self, path: &str) -> (r: Result<String, &'static str>)
        ensures
            match r {
                Ok(file) => !traverses(path@) && file@ == resolved(self@.document_root, path@),
                Err(message) => traverses(path@) && message@ == "Invalid path"@,
            },
    {
        let chars = collect_chars(path);
        if has_parent_sequence(chars.as_slice()) {
            return Err("Invalid path");
        }
        proof {
            reveal_strlit("/");
        }
        let mut file = self.document_root.clone();
        file.append("/");
        if chars.len() == 1 && chars[0] == '/' {
            assert(path@ =~= "/"@);
            file.append("index.html");
        } else if chars.len() > 0 && chars[0] == '/' {
            file.append(path.substring_char(1, chars.len()));
        } else {
            file.append(path);
        }
        Ok(file)
    }

    /// Reads a request line and maps its path to a file's name.
    pub fn resolve(&self, line: &str) -> (r: Result<String, HttpError>)
        ensures
            result_view(r) == resolution(self@.document_root, line@),
    {
        match parse_header(line) {
            Err(e) => Err(e),
            Ok(request) => match self.parse_path(request.path.as_str()) {
                Ok(file) => Ok(file),
                Err(message) => Err(HttpError::BadRequest(message.to_owned())),
            },
        }
    }
}

} // verus!
