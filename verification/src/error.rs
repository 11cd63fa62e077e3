//! Failure taxonomy. Construction failures abort startup and are kept
//! apart from per-request and per-directory operation failures, which
//! are logged and scoped to one request or one title directory.
use vstd::prelude::*;

verus! {

/// Body of an HTTP 422 response: a validation-error payload.
#[derive(Debug, Clone)]
pub struct ServerValidationBodyError {
    pub errors: Vec<String>,
}

/// Body of any other non-2xx response: a generic error payload.
#[derive(Debug, Clone)]
pub struct ServerOtherBodyError {
    pub status_message: String,
}

/// An error payload a remote service returned, one of the two shapes.
#[derive(Debug, Clone)]
pub enum ServerBodyError {
    Other(ServerOtherBodyError),
    Validation(ServerValidationBodyError),
}

impl ServerBodyError {
    /// The generic payload, exactly when this is the `Other` shape.
    pub fn as_other_error(&self) -> (r: Option<&ServerOtherBodyError>)
        ensures
            match self {
                ServerBodyError::Other(inner) => r matches Some(o) && *o == inner,
                ServerBodyError::Validation(_) => r is None,
            },
    {
        match self {
            Self::Other(inner) => Some(inner),
            _ => None,
        }
    }

    /// The validation payload, exactly when this is the `Validation` shape.
    pub fn as_validation_error(&self) -> (r: Option<&ServerValidationBodyError>)
        ensures
            match self {
                ServerBodyError::Validation(inner) => r matches Some(v) && *v == inner,
                ServerBodyError::Other(_) => r is None,
            },
    {
        match self {
            Self::Validation(inner) => Some(inner),
            _ => None,
        }
    }
}

/// A per-request or per-directory operation failure. It never aborts
/// the scan cycle: it stops only the request or directory it belongs to.
#[derive(Debug, Clone)]
pub enum Error {
    /// The request could not be executed; the transport's report.
    Request { message: String },
    /// The response body could not be read or parsed; the parser's report.
    Response { message: String },
    /// The service answered 422 with a validation payload.
    Validation(ServerValidationBodyError),
    /// The service answered another non-2xx status.
    Server { code: u16, content: ServerOtherBodyError },
    /// The remote catalog knows no canonical id for this secondary id.
    NotFound { secondary_id: String },
    /// The durable identifier cache failed; the store's report.
    Cache { message: String },
    /// The client does not support the requested call.
    UnsupportedOperation(String),
}

impl Error {
    /// The validation payload, exactly when this is a `Validation` error.
    pub fn as_validation_error(&self) -> (r: Option<&ServerValidationBodyError>)
        ensures
            match self {
                Error::Validation(inner) => r matches Some(v) && *v == inner,
                _ => r is None,
            },
    {
        match self {
            Self::Validation(inner) => Some(inner),
            _ => None,
        }
    }

    /// The server payload, exactly when this is a `Server` error.
    pub fn as_server_error(&self) -> (r: Option<&ServerOtherBodyError>)
        ensures
            match self {
                Error::Server { code: _, content } => r matches Some(o) && *o == content,
                _ => r is None,
            },
    {
        match self {
            Self::Server { code: _, content } => Some(content),
            _ => None,
        }
    }
}

} // verus!
