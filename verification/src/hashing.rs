use vstd::prelude::*;

use crate::errors::ServiceError;

verus! {

/// What `bcrypt::verify` returns for a password and a stored digest:
/// `None` when the digest is malformed (not a well-formed bcrypt hash
/// string), and otherwise `Some(b)` where `b` says whether the password
/// matches the digest. The result depends on the password and the digest
/// alone: the salt and cost are embedded in the digest and the comparison
/// is recomputed from them.
pub uninterp spec fn bcrypt_accepts(password: Seq<char>, digest: Seq<char>) -> Option<bool>;

/// The tunable work factor used for new digests.
pub const WORK_FACTOR: u32 = 12;

/// Relies on `bcrypt::hash`: it embeds a fresh random salt and the cost in
/// a 60-character digest, and `bcrypt::verify` recomputes the hash from
/// that embedded salt and cost, so a digest it returns verifies against
/// the password it was produced from. `None` when the cost is outside the
/// allowed range or the system randomness source fails.
#[verifier::external_body]
fn bcrypt_hash(password: &str, cost: u32) -> (r: Option<String>)
    ensures
        r matches Some(d) ==> bcrypt_accepts(password@, d@) == Some(true) && d@.len() == 60,
{
    bcrypt::hash(password, cost).ok()
}

/// Relies on `bcrypt::verify`: it parses the salt and cost out of the
/// digest, recomputes the hash, and compares in constant time; a malformed
/// digest is reported as an error rather than as a mismatch.
#[verifier::external_body]
fn bcrypt_check(password: &str, digest: &str) -> (r: Option<bool>)
    ensures
        r matches Some(b) ==> bcrypt_accepts(password@, digest@) == Some(b),
        r is None ==> bcrypt_accepts(password@, digest@) is None,
{
    bcrypt::verify(password, digest).ok()
}

/// What password verification reports for every password and digest:
/// a match or a mismatch when the digest is well formed, and a hashing
/// failure — distinct from a mismatch — when it is corrupt.
pub open spec fn spec_verify_password(password: Seq<char>, digest: Seq<char>) -> Result<
    bool,
    ServiceError,
> {
    match bcrypt_accepts(password, digest) {
        Some(b) => Ok(b),
        None => Err(ServiceError::InternalFailure),
    }
}

/// One-way hash of a plaintext password under the standard work factor.
/// On success the digest verifies against the password it was made from.
pub fn hash_password(password: &str) -> (r: Result<String, ServiceError>)
    ensures
        r matches Ok(d) ==> bcrypt_accepts(password@, d@) == Some(true) && d@.len() == 60,
        r matches Err(e) ==> e == ServiceError::InternalFailure,
{
    match bcrypt_hash(password, WORK_FACTOR) {
        Some(d) => Ok(d),
        None => Err(ServiceError::InternalFailure),
    }
}

/// Check a plaintext password against a stored digest. A corrupt digest is
/// reported as `InternalFailure`, never as an ordinary mismatch.
pub fn verify_password(password: &str, digest: &str) -> (r: Result<bool, ServiceError>)
    ensures
        r == spec_verify_password(password@, digest@),
{
    match bcrypt_check(password, digest) {
        Some(b) => Ok(b),
        None => Err(ServiceError::InternalFailure),
    }
}

/// A password verifies against any digest freshly produced for it: hashing
/// promises `bcrypt_accepts(p, d) == Some(true)` of the digest `d` it
/// returns, and verification accepts exactly those digests.
pub proof fn lemma_fresh_digest_verifies(password: Seq<char>, digest: Seq<char>)
    requires
        bcrypt_accepts(password, digest) == Some(true),
    ensures
        spec_verify_password(password, digest) == Ok::<bool, ServiceError>(true),
{
}

/// Two digests of the same password may differ (each embeds its own random
/// salt), yet both verify against that password.
pub proof fn lemma_distinct_digests_both_verify(
    password: Seq<char>,
    digest1: Seq<char>,
    digest2: Seq<char>,
)
    requires
        digest1 != digest2,
        bcrypt_accepts(password, digest1) == Some(true),
        bcrypt_accepts(password, digest2) == Some(true),
    ensures
        spec_verify_password(password, digest1) == Ok::<bool, ServiceError>(true),
        spec_verify_password(password, digest2) == Ok::<bool, ServiceError>(true),
{
}

} // verus!
