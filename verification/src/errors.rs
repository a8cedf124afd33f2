//! The error type handed to callers of the façade functions.

use vstd::prelude::*;
use vstd::string::StringExecFns;

use crate::store::StoreError;

verus! {

/// What a failed request reports. A denied permission is an `AccessError`;
/// store failures surface as `InternalError` or `NotFound` — a failure and a
/// denial must never be conflated.
#[derive(Debug, Clone, Copy, PartialEq, Eq)]
pub enum ResponseError {
    InternalError,
    BadRequest,
    BadRequestMessage(&'static str),
    NotFound,
    Timeout,
    ValidationError { field: &'static str },
    AccessError(&'static str),
}

impl ResponseError {
    /// The HTTP status code each error class maps to.
    pub open spec fn spec_status_code(self) -> u16 {
        match self {
            ResponseError::InternalError => 500u16,
            ResponseError::BadRequest => 400u16,
            ResponseError::BadRequestMessage(_) => 400u16,
            ResponseError::NotFound => 404u16,
            ResponseError::Timeout => 504u16,
            ResponseError::ValidationError { .. } => 400u16,
            ResponseError::AccessError(_) => 401u16,
        }
    }

    /// The HTTP status code the error is reported under: denials are 401,
    /// malformed input 400, and store faults 500 or 404.
    pub fn status_code(&self) -> (code: u16)
        ensures
            code == self.spec_status_code(),
    {
        match self {
            ResponseError::InternalError => 500,
            ResponseError::BadRequest => 400,
            ResponseError::BadRequestMessage(_) => 400,
            ResponseError::NotFound => 404,
            ResponseError::Timeout => 504,
            ResponseError::ValidationError { .. } => 400,
            ResponseError::AccessError(_) => 401,
        }
    }

    /// The text each error displays as.
    pub open spec fn spec_message(self) -> Seq<char> {
        match self {
            ResponseError::InternalError => "An internal error occurred. Please try again later"@,
            ResponseError::BadRequest => "Bad request"@,
            ResponseError::BadRequestMessage(m) => m@,
            ResponseError::NotFound => "Not found"@,
            ResponseError::Timeout => "Timeout"@,
            ResponseError::ValidationError { field } => "Validation error on field: "@ + field@,
            ResponseError::AccessError(m) => "Access error. "@ + m@,
        }
    }

    /// The human-readable body of the error response.
    pub fn message(&self) -> (r: String)
        ensures
            r@ == self.spec_message(),
    {
        match self {
            ResponseError::InternalError => String::from_str(
                "An internal error occurred. Please try again later",
            ),
            ResponseError::BadRequest => String::from_str("Bad request"),
            ResponseError::BadRequestMessage(m) => String::from_str(m),
            ResponseError::NotFound => String::from_str("Not found"),
            ResponseError::Timeout => String::from_str("Timeout"),
            ResponseError::ValidationError { field } => String::from_str(
                "Validation error on field: ",
            ).concat(field),
            ResponseError::AccessError(m) => String::from_str("Access error. ").concat(m),
        }
    }
}

impl From<StoreError> for ResponseError {
    /// A missing record is reported as not found; a malformed room is an
    /// internal fault of the stored data, not a denial.
    fn from(err: StoreError) -> (r: ResponseError)
        ensures
            r == ResponseError::spec_from_store(err),
    {
        match err {
            StoreError::MalformedRoomState => ResponseError::InternalError,
            StoreError::NotFound => ResponseError::NotFound,
        }
    }
}

impl ResponseError {
    /// How store failures map onto response errors.
    pub open spec fn spec_from_store(err: StoreError) -> ResponseError {
        match err {
            StoreError::MalformedRoomState => ResponseError::InternalError,
            StoreError::NotFound => ResponseError::NotFound,
        }
    }
}

impl vstd::std_specs::convert::FromSpecImpl<StoreError> for ResponseError {
    open spec fn obeys_from_spec() -> bool {
        true
    }

    open spec fn from_spec(err: StoreError) -> ResponseError {
        ResponseError::spec_from_store(err)
    }
}

} // verus!
