//! Recovery from false failures of the Threads `/threads_publish` endpoint.
//!
//! The endpoint sometimes answers with an error although the container was
//! published. This library decides whether such an error is worth a second
//! look, which requests to make next, and which of the user's recent posts is
//! the one that was published. It performs no I/O: each step names the request
//! to make, and takes the reply.

/// Endpoint logic grouped by resource.
pub mod api;
/// Values of the Threads API that the logic compares against.
pub mod constants;
/// Errors that the API reports.
pub mod error;
/// Rules on API error codes.
pub mod http;
/// Comparison of string slices.
mod strings;
/// Posts, identifiers and the contents of publish requests.
pub mod types;
