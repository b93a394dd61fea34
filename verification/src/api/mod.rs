//! The request and response bodies of the HTTP API, and its refusals.
pub mod slack;
pub mod tasks;
