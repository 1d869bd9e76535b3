//! Decision logic of a small user-management web service.
//!
//! The service keeps a `user` relation behind a connection pool and exposes
//! create / read / update / soft-delete / hard-delete operations on it. This
//! library holds everything the service decides: what each data-access
//! operation does to the relation and returns, which statement it sends to
//! the live store, and which HTTP response each outcome becomes. Sockets,
//! pools and the HTTP server itself live with the caller.

pub mod config;
pub mod error;
pub mod handlers;
pub mod http;
pub mod kv;
pub mod kv_basic;
pub mod laws;
pub mod model;
pub mod render;
pub mod sql;
pub mod table;
pub mod text;

pub use config::Config;
pub use error::{BlockingError, Error};
pub use http::{Header, Response};
pub use kv::IdRequest;
pub use model::{Timestamp, UpdateRequest, User, UserRequest};
pub use sql::{Param, Statement};
pub use table::{ExecResult, TableView, UserTable};
