use vstd::prelude::*;
use vstd::string::StrSliceExecFns;

use crate::errors::ServiceError;
use crate::hashing::bcrypt_accepts;
use crate::hashing::hash_password;
use crate::hashing::verify_password;
use crate::token::STANDARD_TTL_SECONDS;
use crate::token::issue;
use crate::token::token_claims;

verus! {

/// A registered shop as the store holds it. The `password` field carries
/// the one-way digest of the signup password, never the plaintext.
#[derive(Clone, Debug)]
pub struct Shop {
    pub id: i32,
    pub name: String,
    pub email: String,
    pub password: String,
}

/// The outward face of a shop: every field but the password digest, which
/// is never serialized outward.
#[derive(Clone, Debug)]
pub struct ShopProfile {
    pub id: i32,
    pub name: String,
    pub email: String,
}

impl Shop {
    /// What a caller may see of this shop: the digest stays behind.
    pub fn profile(&self) -> (p: ShopProfile)
        ensures
            p.id == self.id,
            p.name@ == self.name@,
            p.email@ == self.email@,
    {
        ShopProfile { id: self.id, name: self.name.clone(), email: self.email.clone() }
    }
}

/// What a caller presents to log in; it lives only for the duration of
/// the call and is never persisted.
#[derive(Clone, Debug)]
pub struct LoginCredentials {
    pub email: String,
    pub password: String,
}

/// What a caller presents to sign up.
#[derive(Clone, Debug)]
pub struct SignupData {
    pub name: String,
    pub email: String,
    pub password: String,
}

/// A row ready to be persisted for a new shop: the signup fields with the
/// password replaced by its digest.
#[derive(Clone, Debug)]
pub struct NewShop {
    pub name: String,
    pub email: String,
    pub password: String,
}

/// How the store answered the insert of a new shop row: the created row
/// read back within the same unit of work, a uniqueness-constraint
/// violation, or any other store failure.
#[derive(Clone, Debug)]
pub enum StoreOutcome {
    Inserted(Shop),
    UniqueViolation,
    Failure,
}

pub open spec fn is_lower_char(c: char) -> bool {
    'a' <= c && c <= 'z'
}

pub open spec fn is_upper_char(c: char) -> bool {
    'A' <= c && c <= 'Z'
}

pub open spec fn is_digit_char(c: char) -> bool {
    '0' <= c && c <= '9'
}

/// The password policy: at least one lowercase letter, one uppercase
/// letter and one digit.
pub open spec fn spec_valid_password(p: Seq<char>) -> bool {
    &&& exists|i: int| 0 <= i < p.len() && is_lower_char(p[i])
    &&& exists|i: int| 0 <= i < p.len() && is_upper_char(p[i])
    &&& exists|i: int| 0 <= i < p.len() && is_digit_char(p[i])
}

/// Whether a password satisfies the policy.
pub fn is_valid_password(password: &str) -> (r: bool)
    ensures
        r == spec_valid_password(password@),
{
    let n = password.unicode_len();
    let mut has_lower = false;
    let mut has_upper = false;
    let mut has_digit = false;
    let mut i: usize = 0;
    while i < n
        invariant
            n == password@.len(),
            i <= n,
            has_lower == exists|j: int| 0 <= j < i && is_lower_char(password@[j]),
            has_upper == exists|j: int| 0 <= j < i && is_upper_char(password@[j]),
            has_digit == exists|j: int| 0 <= j < i && is_digit_char(password@[j]),
        decreases n - i,
    {
        let c = password.get_char(i);
        if 'a' <= c && c <= 'z' {
            has_lower = true;
        }
        if 'A' <= c && c <= 'Z' {
            has_upper = true;
        }
        if '0' <= c && c <= '9' {
            has_digit = true;
        }
        i = i + 1;
    }
    has_lower && has_upper && has_digit
}

/// Decide signup from the lookup of the requested email and, when it is
/// free, hash the password into the row to persist. An email already
/// present is a duplicate identity; a hashing failure is internal; on
/// success the row carries the signup fields and a digest that verifies
/// against the signup password.
pub fn prepare_signup(data: &SignupData, existing: Option<&Shop>) -> (r: Result<
    NewShop,
    ServiceError,
>)
    ensures
        existing is Some ==> r == Err::<NewShop, _>(ServiceError::DuplicateIdentity),
        r matches Ok(row) ==> existing is None && row.name@ == data.name@ && row.email@
            == data.email@ && bcrypt_accepts(data.password@, row.password@) == Some(true),
        existing is None ==> (r matches Err(e) ==> e == ServiceError::InternalFailure),
{
    if existing.is_some() {
        return Err(ServiceError::DuplicateIdentity);
    }
    match hash_password(data.password.as_str()) {
        Ok(digest) => Ok(
            NewShop { name: data.name.clone(), email: data.email.clone(), password: digest },
        ),
        Err(_) => Err(ServiceError::InternalFailure),
    }
}

/// How each answer of the store to the insert maps onto the signup
/// outcome.
pub open spec fn spec_complete_signup(outcome: StoreOutcome) -> Result<Shop, ServiceError> {
    match outcome {
        StoreOutcome::Inserted(shop) => Ok(shop),
        StoreOutcome::UniqueViolation => Err(ServiceError::DuplicateIdentity),
        StoreOutcome::Failure => Err(ServiceError::InternalFailure),
    }
}

/// Map the store's answer to the insert onto the signup outcome. A
/// uniqueness violation raised by the store itself — the check-then-act
/// race that the earlier lookup cannot close — is a duplicate identity,
/// never a generic failure; the store's constraint is the authoritative
/// guarantee.
pub fn complete_signup(outcome: StoreOutcome) -> (r: Result<Shop, ServiceError>)
    ensures
        r == spec_complete_signup(outcome),
{
    match outcome {
        StoreOutcome::Inserted(shop) => Ok(shop),
        StoreOutcome::UniqueViolation => Err(ServiceError::DuplicateIdentity),
        StoreOutcome::Failure => Err(ServiceError::InternalFailure),
    }
}

/// Two concurrent signups with the same email: the store's uniqueness
/// constraint lets exactly one insert through, and whichever insert it
/// refuses is reported as the same duplicate identity the earlier lookup
/// would have found — exactly one caller gets the created row, the other
/// gets `DuplicateIdentity`.
pub proof fn lemma_signup_race_one_winner(winner: Shop, loser: StoreOutcome)
    requires
        loser is UniqueViolation,
    ensures
        spec_complete_signup(StoreOutcome::Inserted(winner)) == Ok::<_, ServiceError>(winner),
        spec_complete_signup(loser) == Err::<Shop, _>(ServiceError::DuplicateIdentity),
{
}

/// The view of the optional row a login lookup found.
pub open spec fn spec_found_shop(shop: Option<&Shop>) -> Option<Shop> {
    match shop {
        Some(s) => Some(*s),
        None => None,
    }
}

/// Why a login is refused, if it is: an unknown email and a wrong
/// password are the same `InvalidCredentials`, and only a corrupt stored
/// digest is an internal failure. `None` means the credentials are good.
pub open spec fn spec_login_error(shop: Option<Shop>, password: Seq<char>) -> Option<
    ServiceError,
> {
    match shop {
        None => Some(ServiceError::InvalidCredentials),
        Some(s) => match bcrypt_accepts(password, s.password@) {
            Some(true) => None,
            Some(false) => Some(ServiceError::InvalidCredentials),
            None => Some(ServiceError::InternalFailure),
        },
    }
}

/// Decide login from the lookup of the presented email: verify the
/// password against the stored digest and, on a match, issue a token
/// bound to the shop's id for the standard TTL. Good credentials always
/// yield a token; a missing shop and a mismatched password fail with the
/// identical `InvalidCredentials`.
pub fn login_attempt(shop: Option<&Shop>, password: &str, secret: &[u8], now: u64) -> (r: Result<
    String,
    ServiceError,
>)
    requires
        now + STANDARD_TTL_SECONDS <= u64::MAX,
    ensures
        spec_login_error(spec_found_shop(shop), password@) is None ==> r is Ok,
        r matches Ok(t) ==> (shop matches Some(s) && bcrypt_accepts(password@, s.password@)
            == Some(true) && token_claims(secret@, t@) == Some(
            (s.id as int, (now + STANDARD_TTL_SECONDS) as int),
        )),
        spec_login_error(spec_found_shop(shop), password@) matches Some(e) ==> r == Err::<
            String,
            _,
        >(e),
        r matches Err(e) ==> (e == ServiceError::InvalidCredentials || e
            == ServiceError::InternalFailure),
        (r matches Err(e) && e == ServiceError::InvalidCredentials) ==> spec_login_error(
            spec_found_shop(shop),
            password@,
        ) == Some(ServiceError::InvalidCredentials),
{
    match shop {
        None => Err(ServiceError::InvalidCredentials),
        Some(s) => match verify_password(password, s.password.as_str()) {
            Ok(true) => Ok(issue(secret, s.id, now, STANDARD_TTL_SECONDS)),
            Ok(false) => Err(ServiceError::InvalidCredentials),
            Err(_) => Err(ServiceError::InternalFailure),
        },
    }
}

/// Either digest of one password logs its owner in: a shop row whose
/// stored digest verifies the password has no login error, so a login
/// against it returns a token, whichever of the password's digests the
/// row happens to hold.
pub proof fn lemma_any_verifying_digest_logs_in(s: Shop, password: Seq<char>)
    requires
        bcrypt_accepts(password, s.password@) == Some(true),
    ensures
        spec_login_error(Some(s), password) is None,
{
}

/// Login with an unknown email and login with a wrong password are
/// refused identically: the same `InvalidCredentials`, with nothing to
/// tell the two apart.
pub proof fn lemma_login_rejections_identical(s: Shop, password: Seq<char>)
    requires
        bcrypt_accepts(password, s.password@) == Some(false),
    ensures
        spec_login_error(Some(s), password) == spec_login_error(None, password),
        spec_login_error(None, password) == Some(ServiceError::InvalidCredentials),
{
}

} // verus!
