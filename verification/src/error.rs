//! The library's error type.
use vstd::prelude::*;

verus! {

/// The error `url::Url::parse` reports.
#[verifier::external_type_specification]
#[verifier::external_body]
pub struct ExUrlParseError(url::ParseError);

/// An I/O error of std, carried in the errors for unreadable JSON input.
#[verifier::external_type_specification]
#[verifier::external_body]
pub struct ExIoError(std::io::Error);

/// Everything that can go wrong between the command line and the API's answer.
#[derive(Debug)]
pub enum TickTickError {
    /// An API request has neither a bearer token nor basic credentials.
    MissingAccessToken,
    /// An OAuth command was given no client id.
    MissingClientId,
    /// The OAuth code exchange was given no client secret.
    MissingClientSecret,
    /// More than one of `--json`, `--json-file`, `--json-stdin` was given.
    ConflictingJsonInput,
    /// A command that sends a body was given no JSON input.
    MissingJsonInput,
    /// The JSON file could not be read.
    ReadJsonFile { path: String, source: std::io::Error },
    /// Standard input could not be read.
    ReadStdin(std::io::Error),
    /// The JSON input is not JSON.
    InvalidJson(serde_json::Error),
    /// The request URL does not parse.
    Url(url::ParseError),
    /// The HTTP exchange failed; the message of the transport error.
    Http(String),
    /// The API answered with a status outside 200 to 299.
    ApiStatus { status: u16, body: String },
}

} // verus!
