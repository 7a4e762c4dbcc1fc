use vstd::prelude::*;

verus! {

/// Every failure the credential subsystem can report.
///
/// `DuplicateIdentity` and `InvalidCredentials` are expected, user-facing
/// outcomes of signup and login. `MissingAuthorization` and `InvalidToken`
/// are the two rejection signals of the authentication gate.
/// `StoreUnavailable` is fatal and arises only while bootstrapping the
/// data-store connection. `InternalFailure` covers unexpected store or
/// hashing errors during normal operation.
#[derive(Clone, Copy, Debug, PartialEq, Eq, Structural)]
pub enum ServiceError {
    DuplicateIdentity,
    InvalidCredentials,
    InvalidToken,
    MissingAuthorization,
    StoreUnavailable,
    InternalFailure,
}

/// The HTTP status each error surfaces as: duplicate identities and
/// validation failures are client errors, authentication failures are
/// unauthorized, everything else is a server-side failure.
pub open spec fn spec_status_code(e: ServiceError) -> u16 {
    match e {
        ServiceError::DuplicateIdentity => 400,
        ServiceError::InvalidCredentials => 401,
        ServiceError::InvalidToken => 401,
        ServiceError::MissingAuthorization => 401,
        ServiceError::StoreUnavailable => 500,
        ServiceError::InternalFailure => 500,
    }
}

impl ServiceError {
    /// The HTTP status code this error maps to at the service boundary.
    pub fn status_code(&self) -> (code: u16)
        ensures
            code == spec_status_code(*self),
    {
        match self {
            ServiceError::DuplicateIdentity => 400,
            ServiceError::InvalidCredentials => 401,
            ServiceError::InvalidToken => 401,
            ServiceError::MissingAuthorization => 401,
            ServiceError::StoreUnavailable => 500,
            ServiceError::InternalFailure => 500,
        }
    }
}

} // verus!
