//! Envelopes of the API's responses.

use vstd::prelude::*;

use crate::entities::Pagination;
use crate::error::PaddleApiError;

verus! {

/// Meta information about the API request.
/// This includes the request ID, which can be used for debugging or tracking purposes.
#[derive(Clone, Debug)]
pub struct Meta {
    pub request_id: String,
    pub pagination: Option<Pagination>,
}

/// Success response structure for the API.
#[derive(Clone, Debug)]
pub struct SuccessResponse<T> {
    pub data: T,
    pub meta: Meta,
}

/// Error response structure for the API.
#[derive(Clone, Debug)]
pub struct ErrorResponse {
    pub error: PaddleApiError,
    pub meta: Meta,
}

} // verus!
