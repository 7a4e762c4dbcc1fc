use vstd::prelude::*;
use vstd::string::StrSliceExecFns;

use crate::errors::ServiceError;
use crate::errors::spec_status_code;
use crate::token::Claims;
use crate::token::spec_validate;
use crate::token::validate;

verus! {

/// The interception layer placed in front of every protected operation:
/// it extracts and validates the bearer credential and either hands the
/// decoded identity to the wrapped operation or rejects the request
/// before that operation runs.
pub struct AuthMiddleware;

/// A wrapped operation together with the interceptor placed in front of
/// it, which decides per request; only an admitting decision carries the
/// identity under which the wrapped operation may run.
pub struct AuthMiddlewareService<S> {
    pub service: S,
}

/// Whether the header value opens with the bearer scheme: the seven
/// characters `Bearer` followed by a space.
pub open spec fn has_bearer_scheme(header: Seq<char>) -> bool {
    &&& header.len() >= 7
    &&& header[0] == 'B'
    &&& header[1] == 'e'
    &&& header[2] == 'a'
    &&& header[3] == 'r'
    &&& header[4] == 'e'
    &&& header[5] == 'r'
    &&& header[6] == ' '
}

/// The token text carried by an authorization header value: everything
/// after the bearer scheme, provided the scheme is present and the token
/// text is not empty.
pub open spec fn spec_bearer_token(header: Seq<char>) -> Option<Seq<char>> {
    if has_bearer_scheme(header) && header.len() > 7 {
        Some(header.subrange(7, header.len() as int))
    } else {
        None
    }
}

/// Pull the token text out of an authorization header value. A malformed
/// scheme and an absent token text both yield nothing.
pub fn extract_bearer_token(header: &str) -> (r: Option<&str>)
    ensures
        r matches Some(t) ==> spec_bearer_token(header@) == Some(t@),
        r is None ==> spec_bearer_token(header@) is None,
{
    let n = header.unicode_len();
    if n <= 7 {
        return None;
    }
    if header.get_char(0) == 'B' && header.get_char(1) == 'e' && header.get_char(2) == 'a'
        && header.get_char(3) == 'r' && header.get_char(4) == 'e' && header.get_char(5) == 'r'
        && header.get_char(6) == ' ' {
        Some(header.substring_char(7, n))
    } else {
        None
    }
}

/// What the authentication layer decides for a request: the claims of a
/// present, well schemed, valid and unexpired bearer token, or the
/// rejection that stops the request. An absent header, a malformed scheme and an empty token
/// text reject as `MissingAuthorization`; a token that does not validate
/// rejects as `InvalidToken`.
pub open spec fn spec_gate(secret: Seq<u8>, header: Option<Seq<char>>, now: int) -> Result<
    (int, int),
    ServiceError,
> {
    match header {
        None => Err(ServiceError::MissingAuthorization),
        Some(h) => match spec_bearer_token(h) {
            None => Err(ServiceError::MissingAuthorization),
            Some(t) => match spec_validate(secret, t, now) {
                Some(c) => Ok(c),
                None => Err(ServiceError::InvalidToken),
            },
        },
    }
}

/// The view of an optional header value.
pub open spec fn spec_header(header: Option<&str>) -> Option<Seq<char>> {
    match header {
        Some(h) => Some(h@),
        None => None,
    }
}

/// Authenticate one request from its authorization header at instant
/// `now`: the decoded identity exactly when the decision admits the
/// request, and the rejection otherwise.
pub fn authenticate(secret: &[u8], header: Option<&str>, now: u64) -> (r: Result<
    Claims,
    ServiceError,
>)
    ensures
        r matches Ok(c) ==> spec_gate(secret@, spec_header(header), now as int) == Ok::<
            _,
            ServiceError,
        >((c.sub as int, c.exp as int)),
        r matches Err(e) ==> spec_gate(secret@, spec_header(header), now as int) == Err::<
            (int, int),
            _,
        >(e),
{
    match header {
        None => Err(ServiceError::MissingAuthorization),
        Some(h) => match extract_bearer_token(h) {
            None => Err(ServiceError::MissingAuthorization),
            Some(t) => validate(secret, t, now),
        },
    }
}

impl AuthMiddleware {
    /// Place the interceptor in front of a protected operation.
    pub fn new_transform<S>(&self, service: S) -> (r: AuthMiddlewareService<S>)
        ensures
            r.service == service,
    {
        AuthMiddlewareService { service }
    }
}

impl<S> AuthMiddlewareService<S> {
    /// The per-request decision: authenticate the caller, or reject the
    /// request before the wrapped operation runs. The wrapped operation
    /// may only be invoked with the claims of an `Ok` decision.
    pub fn call(&self, secret: &[u8], header: Option<&str>, now: u64) -> (r: Result<
        Claims,
        ServiceError,
    >)
        ensures
            r matches Ok(c) ==> spec_gate(secret@, spec_header(header), now as int) == Ok::<
                _,
                ServiceError,
            >((c.sub as int, c.exp as int)),
            r matches Err(e) ==> spec_gate(secret@, spec_header(header), now as int) == Err::<
                (int, int),
                _,
            >(e),
    {
        authenticate(secret, header, now)
    }
}

/// Every rejection of the authentication layer surfaces as the same
/// category: a request with no header, a malformed scheme, an empty token
/// text, a tampered token or an expired one is answered with an
/// unauthorized status, and no claims exist under which the wrapped
/// operation could run.
pub proof fn lemma_gate_rejections_unauthorized(
    secret: Seq<u8>,
    header: Option<Seq<char>>,
    now: int,
)
    ensures
        spec_gate(secret, header, now) matches Err(e) ==> spec_status_code(e) == 401,
        header is None ==> spec_gate(secret, header, now) == Err::<(int, int), _>(
            ServiceError::MissingAuthorization,
        ),
        (header matches Some(h) && spec_bearer_token(h) is None) ==> spec_gate(secret, header, now)
            == Err::<(int, int), _>(ServiceError::MissingAuthorization),
        (header matches Some(h) && spec_bearer_token(h) matches Some(t) && spec_validate(
            secret,
            t,
            now,
        ) is None) ==> spec_gate(secret, header, now) == Err::<(int, int), _>(
            ServiceError::InvalidToken,
        ),
{
}

} // verus!
