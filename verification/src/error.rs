use vstd::prelude::*;

verus! {

/// The outside error type of the HTTP client, `reqwest::Error`. Nothing is
/// known of a value of it here; it is only carried to [`ErrorKind::from`].
#[verifier::external_type_specification]
#[verifier::external_body]
pub struct ExReqwestError(reqwest::Error);

/// Why a fetch brought no quote.
///
/// There is one kind only: a request that could not be sent, a reply that
/// was not a success, and a body that did not decode are all the same to
/// the viewer.
#[derive(Debug, Clone, Copy, PartialEq, Eq, Structural)]
pub enum ErrorKind {
    APIError,
}

impl From<reqwest::Error> for ErrorKind {
    /// Every failure of the HTTP client is an [`ErrorKind::APIError`]; the
    /// cause is dropped.
    fn from(error: reqwest::Error) -> (kind: ErrorKind)
        ensures
            kind == ErrorKind::APIError,
    {
        ErrorKind::APIError
    }
}

impl vstd::std_specs::convert::FromSpecImpl<reqwest::Error> for ErrorKind {
    open spec fn obeys_from_spec() -> bool {
        true
    }

    open spec fn from_spec(error: reqwest::Error) -> ErrorKind {
        ErrorKind::APIError
    }
}

} // verus!
