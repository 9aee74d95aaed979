//! Client-side logic of a VirusTotal v3 API binding: request descriptors
//! with their authentication headers, response classification, and decoding
//! of compressed newline-delimited JSON feeds.

use vstd::prelude::*;

pub mod feed;
pub mod json;
pub mod request;
pub mod response;

verus! {

/// How a single API call can fail.
#[derive(Clone, Debug, PartialEq, Eq)]
pub enum VtError {
    /// The connection, send or receive step failed before a status was read.
    Transport(String),
    /// The server answered with a status other than 200; carries that status
    /// and the raw body text.
    Remote { status: u16, text: String },
    /// The server answered 200 but the body was not the expected JSON.
    Decode(String),
    /// The body of a non-200 response could not be read as text.
    TextRead(String),
}

/// Outcome of a single API call.
pub type VtResult<T> = Result<T, VtError>;

} // verus!
