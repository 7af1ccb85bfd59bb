//! Errors of the client and of webhook signature checks.

use hmac::digest::MacError;
use reqwest::Error as HttpError;
use serde_json::Error as JsonError;
use serde_qs::Error as QsError;
use url::ParseError as UrlError;
use vstd::prelude::*;

use crate::response::ErrorResponse;

verus! {

/// An HTTP transport error, carried as it is.
#[verifier::external_type_specification]
#[verifier::external_body]
pub struct ExHttpError(HttpError);

/// A URL that could not be parsed, carried as it is.
#[verifier::external_type_specification]
#[verifier::external_body]
pub struct ExUrlError(UrlError);

/// A query string that could not be read, carried as it is.
#[verifier::external_type_specification]
#[verifier::external_body]
pub struct ExQsError(QsError);

/// A failed MAC comparison, carried as it is.
#[verifier::external_type_specification]
#[verifier::external_body]
pub struct ExMacError(MacError);

/// A JSON (de)serialisation failure, carried as it is.
#[verifier::external_type_specification]
#[verifier::external_body]
pub struct ExJsonError(JsonError);

/// Type of error encountered.
#[derive(Clone, Copy, Debug, PartialEq, Eq)]
#[non_exhaustive]
pub enum ErrorType {
    /// Typically means there's a problem with the request that you made.
    RequestError,
    /// Typically means there's a problem with the API.
    ApiError,
}

/// Error generated when validating webhook signatures.
#[derive(Clone, Copy, Debug, PartialEq, Eq)]
pub enum SignatureError {
    /// No signature provided
    Empty,
    /// The header is not two parts separated by a single `;`
    InvalidFormat,
    /// A part of the signature is not a single `key=value` pair
    InvalidPartFormat,
    /// Unable to extract timestamp or signature
    ParseError,
    /// The signature is older than the allowed variance, given in seconds
    MaxVarianceExceeded(u64),
}

/// Error struct for a single invalid field.
#[derive(Clone, Debug)]
pub struct ValidationError {
    /// Field where validation error occurred.
    pub field: String,
    /// Information about how the field failed validation.
    pub message: String,
}

/// Error type returned from the API.
#[derive(Clone, Debug)]
pub struct PaddleApiError {
    /// Type of error encountered.
    pub error_type: ErrorType,
    /// Short snake case string that describes this error. Use to search the error reference.
    pub code: String,
    /// Some information about what went wrong as a human-readable string.
    pub detail: String,
    /// Link to a page in the error reference for this specific error.
    pub documentation_url: String,
    /// List of validation errors.
    pub errors: Option<Vec<ValidationError>>,
}

/// SDK error type: every fallible operation of this crate returns it.
#[derive(Debug)]
pub enum Error {
    Request(HttpError),
    Url(UrlError),
    PaddleApi(ErrorResponse),
    QueryString(QsError),
    PaddleSignature(SignatureError),
    ParseIntError(std::num::ParseIntError),
    MacError(MacError),
    JsonError(JsonError),
}

} // verus!
