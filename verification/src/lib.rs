//! The rules of a small HTTP server for static files: how a request line is
//! read, which file it names under the document root, what is sent back, and
//! in which order a connection is worked on. Sockets, files and threads are
//! left to the caller, who carries out what [`Handler`] asks for.

pub mod error;
pub mod handler;
pub mod request;
pub mod server;
pub mod session;
pub mod text;

pub use crate::error::{ErrorKind, HttpError};
pub use crate::handler::{Action, Event, Handler};
pub use crate::server::Server;
