use vstd::prelude::*;

use crate::errors::ServiceError;

verus! {

/// The decoded content of a token: the shop it identifies and the epoch
/// second at which it stops being valid.
#[derive(Clone, Copy, Debug, PartialEq, Eq, Structural)]
pub struct Claims {
    pub sub: i32,
    pub exp: u64,
}

/// Seconds a freshly issued token stays valid: 24 hours.
pub const STANDARD_TTL_SECONDS: u64 = 86400;

/// The claims that a signed token carries under a secret, or `None` when
/// the token is not a well-formed HS256 token signed with that secret or
/// does not carry an integral subject and expiry. This is what
/// `jsonwebtoken::decode` reports once its own expiry check is set aside:
/// a pure function of the secret and the token text.
pub uninterp spec fn token_claims(secret: Seq<u8>, token: Seq<char>) -> Option<(int, int)>;

/// Relies on `jsonwebtoken::encode` with the default HS256 header: the
/// token it returns is a well-formed token, signed with the secret, that
/// carries exactly the subject and expiry handed in, and
/// `jsonwebtoken::decode` under the same secret recovers them. Encoding
/// cannot fail here: the HMAC signer accepts a secret of any length, and
/// a map of two numbers always serializes.
#[verifier::external_body]
fn jwt_encode(secret: &[u8], subject: i32, expires_at: u64) -> (r: Option<String>)
    ensures
        r is Some,
        r matches Some(t) ==> token_claims(secret@, t@) == Some(
            (subject as int, expires_at as int),
        ),
{
    let mut claims = serde_json::Map::new();
    claims.insert("sub".to_string(), serde_json::Value::from(subject));
    claims.insert("exp".to_string(), serde_json::Value::from(expires_at));
    jsonwebtoken::encode(
        &jsonwebtoken::Header::default(),
        &serde_json::Value::Object(claims),
        &jsonwebtoken::EncodingKey::from_secret(secret),
    ).ok()
}

/// Relies on `jsonwebtoken::decode` for HS256 with its expiry check turned
/// off: it accepts exactly the well-formed tokens whose signature matches
/// the secret, and hands back the subject and expiry signed into them. The
/// result depends on the secret and the token alone.
#[verifier::external_body]
fn jwt_decode(secret: &[u8], token: &str) -> (r: Option<(i32, u64)>)
    ensures
        r matches Some(c) ==> token_claims(secret@, token@) == Some((c.0 as int, c.1 as int)),
        r is None ==> token_claims(secret@, token@) is None,
{
    let mut validation = jsonwebtoken::Validation::new(jsonwebtoken::Algorithm::HS256);
    validation.validate_exp = false;
    let key = jsonwebtoken::DecodingKey::from_secret(secret);
    let data = jsonwebtoken::decode::<serde_json::Value>(token, &key, &validation).ok()?;
    let sub = data.claims.get("sub").and_then(serde_json::Value::as_i64)?;
    let exp = data.claims.get("exp").and_then(serde_json::Value::as_u64)?;
    Some((i32::try_from(sub).ok()?, exp))
}

/// What validation decides at instant `now`: the claims signed into the
/// token when they exist and have not yet expired, and nothing otherwise.
/// A token whose expiry equals `now` is already expired.
pub open spec fn spec_validate(secret: Seq<u8>, token: Seq<char>, now: int) -> Option<(int, int)> {
    match token_claims(secret, token) {
        Some(c) => if c.1 > now {
            Some(c)
        } else {
            None
        },
        None => None,
    }
}

/// Issue a token identifying `subject` that expires `ttl` seconds after
/// `now`: it carries exactly that subject and expiry under the secret.
pub fn issue(secret: &[u8], subject: i32, now: u64, ttl: u64) -> (t: String)
    requires
        now + ttl <= u64::MAX,
    ensures
        token_claims(secret@, t@) == Some((subject as int, (now + ttl) as int)),
{
    jwt_encode(secret, subject, now + ttl).unwrap()
}

/// Validate a token at instant `now`. Malformed encoding, a signature that
/// does not match the secret, and an expiry at or before `now` all
/// collapse to the single `InvalidToken` outcome; the claims come back
/// exactly as they were signed in.
pub fn validate(secret: &[u8], token: &str, now: u64) -> (r: Result<Claims, ServiceError>)
    ensures
        r matches Ok(c) ==> spec_validate(secret@, token@, now as int) == Some(
            (c.sub as int, c.exp as int),
        ),
        r matches Err(e) ==> e == ServiceError::InvalidToken && spec_validate(
            secret@,
            token@,
            now as int,
        ) is None,
{
    match jwt_decode(secret, token) {
        Some((sub, exp)) => if exp > now {
            Ok(Claims { sub, exp })
        } else {
            Err(ServiceError::InvalidToken)
        },
        None => Err(ServiceError::InvalidToken),
    }
}

/// Issuing then validating: a token carrying subject `s` and expiry `e` is
/// accepted at every instant strictly before `e`, and validation yields
/// exactly the claims that were signed in.
pub proof fn lemma_issue_then_validate(
    secret: Seq<u8>,
    token: Seq<char>,
    s: int,
    e: int,
    now: int,
)
    requires
        token_claims(secret, token) == Some((s, e)),
        now < e,
    ensures
        spec_validate(secret, token, now) == Some((s, e)),
{
}

/// The expiry boundary: a token carrying expiry `e` is accepted strictly
/// before `e` and rejected at and after `e`.
pub proof fn lemma_expiry_boundary(secret: Seq<u8>, token: Seq<char>, s: int, e: int, now: int)
    requires
        token_claims(secret, token) == Some((s, e)),
    ensures
        now < e ==> spec_validate(secret, token, now) == Some((s, e)),
        now >= e ==> spec_validate(secret, token, now) is None,
{
}

} // verus!
