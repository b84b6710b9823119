//! A client library for the Dune Analytics query-execution API.
//!
//! The library holds the verified core of the client: the execution-state
//! model, query parameters and their wire encoding, the construction of
//! every request, the classification of every response, and the polling
//! state machine that drives a query from submission to its results.
//! Performing the HTTP exchange itself is left to the caller.

/// DuneClient structure and the requests of all API routes.
pub mod client;
/// Date fields of a response: chrono's parser, and the formats it is given.
pub mod dateutil;
/// DuneRequestError (encapsulating all errors that could arise within network requests and result parsing)
pub mod error;
/// Content related to Query Parameters.
pub mod parameters;
/// Utility methods for the fields of result rows (primarily date parsing).
pub mod parse_utils;
/// The plan of a refresh: execute, poll, fetch.
pub mod refresh;
/// Data models representing response types for all client methods.
pub mod response;
/// Small verified helpers on text.
pub mod text;
/// Dates for query parameters.
pub mod util;
/// The body of a POST request.
pub mod wire;
