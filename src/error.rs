//! The errors of a call to the API.
use vstd::prelude::*;

use crate::types::ErrorDetail;

verus! {

/// An error that serde_json reports while encoding or decoding a value.
#[verifier::external_type_specification]
#[verifier::external_body]
pub struct ExJsonError(serde_json::Error);

/// An error that reqwest reports for an HTTP exchange.
#[verifier::external_type_specification]
#[verifier::external_body]
pub struct ExHttpError(reqwest::Error);

/// Why a call to the API failed.
#[derive(Debug)]
pub enum GeminiError {
    /// The body could not be encoded or the answer could not be decoded.
    Serde(serde_json::Error),
    /// The HTTP exchange failed.
    Http(reqwest::Error),
    /// The API answered with an error.
    Gemini(ErrorDetail),
}

impl From<serde_json::Error> for GeminiError {
    fn from(e: serde_json::Error) -> (r: GeminiError) {
        GeminiError::Serde(e)
    }
}

impl vstd::std_specs::convert::FromSpecImpl<serde_json::Error> for GeminiError {
    open spec fn obeys_from_spec() -> bool {
        true
    }

    open spec fn from_spec(e: serde_json::Error) -> GeminiError {
        GeminiError::Serde(e)
    }
}

impl From<reqwest::Error> for GeminiError {
    fn from(e: reqwest::Error) -> (r: GeminiError) {
        GeminiError::Http(e)
    }
}

impl vstd::std_specs::convert::FromSpecImpl<reqwest::Error> for GeminiError {
    open spec fn obeys_from_spec() -> bool {
        true
    }

    open spec fn from_spec(e: reqwest::Error) -> GeminiError {
        GeminiError::Http(e)
    }
}

} // verus!
