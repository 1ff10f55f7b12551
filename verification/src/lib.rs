//! Document-operation layer of a client for a document-oriented database.
//!
//! Every document-level remote operation (fetch, fetch-header, insert one or
//! many, replace, partial update) is represented as an immutable descriptor
//! value that carries the operation's parameters and optional modifiers and
//! compiles deterministically into the pieces of an HTTP request: operation
//! kind, path, query parameters, headers, and body. A separate dispatcher
//! (outside this crate) performs the network call; nothing here does I/O.

pub mod api;
pub mod protocol;
pub mod types;
pub mod methods;
pub mod laws;
