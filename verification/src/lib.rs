//! A minimal static-file HTTP server core.
//!
//! The library holds the whole request-handling logic of the server: deriving
//! the asset lookup key from a request URL, classifying a path's content type
//! from its extension, and resolving one request against an immutable in-memory
//! asset bundle into exactly one response (a full `200` or an empty `404`).
//! The network transport around it only pulls requests and writes the response
//! bytes back.

pub mod classify;
pub mod dispatch;
pub mod store;
pub mod strutil;
