//! Failures of the services.

use vstd::prelude::*;
use vstd::string::*;

verus! {

/// A failure of a service: an internal fault with its cause, a missing
/// resource with an explanation, or credentials that do not match.
#[derive(Debug)]
pub enum ServiceError {
    InternalError(String),
    NotFound(String),
    AuthError,
}

/// The abstract form of a service failure.
pub enum ServiceErrorView {
    InternalError(Seq<char>),
    NotFound(Seq<char>),
    AuthError,
}

impl View for ServiceError {
    type V = ServiceErrorView;

    open spec fn view(&self) -> ServiceErrorView {
        match self {
            ServiceError::InternalError(s) => ServiceErrorView::InternalError(s@),
            ServiceError::NotFound(s) => ServiceErrorView::NotFound(s@),
            ServiceError::AuthError => ServiceErrorView::AuthError,
        }
    }
}

impl ServiceError {
    /// The text that describes this failure.
    pub open spec fn message_spec(&self) -> Seq<char> {
        match self {
            ServiceError::InternalError(s) => "Internal error: "@ + s@,
            ServiceError::NotFound(s) => "Resource not found: "@ + s@,
            ServiceError::AuthError => "Invalid Credentials"@,
        }
    }

    /// The text that describes this failure.
    pub fn message(&self) -> (r: String)
        ensures
            r@ == self.message_spec(),
    {
        match self {
            ServiceError::InternalError(s) => "Internal error: ".to_owned().concat(s.as_str()),
            ServiceError::NotFound(s) => "Resource not found: ".to_owned().concat(s.as_str()),
            ServiceError::AuthError => "Invalid Credentials".to_owned(),
        }
    }
}

} // verus!
