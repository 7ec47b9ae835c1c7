//! A small client library for the IFTTT webhook service: it builds the
//! trigger address and the JSON payload of a request, and tells a successful
//! response from a failed one.

pub mod data;
pub mod error;
pub mod request;
