//! Credential codec: password hashing and verification, and signed identity
//! tokens that carry a subject and an expiry instant.
use jsonwebtoken::errors::ErrorKind;
use jsonwebtoken::{Algorithm, DecodingKey, EncodingKey, Header, Validation};
use serde_json::{Map as JsonMap, Value};
use vstd::prelude::*;

use crate::error::{internal_error, internal_failure, SBError};
use crate::ids::hex_digit;

verus! {

/// Seconds for which an issued identity token stays valid (48 hours).
pub const TOKEN_LIFETIME_SECS: u64 = 172800;

/// Work factor of the password hash.
pub const HASH_COST: u32 = 4;

pub const CREDENTIALS_SERVICE: &'static str = "users";

pub const HASH_FAILED: &'static str = "Failure hashing password";

pub const CORRUPT_CREDENTIAL: &'static str = "Corrupt stored credential.";

pub const CLOCK_OUT_OF_RANGE: &'static str = "Clock out of range.";

/// The payload of an identity token.
#[derive(Debug)]
pub struct Claims {
    /// The subject: the identifier of the user, as text.
    pub sub: String,
    /// The instant after which the token is no longer accepted, in seconds
    /// since the Unix epoch.
    pub exp: u64,
}

impl View for Claims {
    type V = (Seq<char>, int);

    open spec fn view(&self) -> (Seq<char>, int) {
        (self.sub@, self.exp as int)
    }
}

/// Why a token was not accepted.
#[derive(Clone, Copy, Debug, PartialEq, Eq, Structural)]
pub enum TokenError {
    /// The text is not a token of the expected shape and algorithm.
    Malformed,
    /// The signature does not match the secret.
    InvalidSignature,
    /// The expiry instant has passed.
    Expired,
}

/// The claims of an outcome, as values.
pub open spec fn claims_view(r: Result<Claims, TokenError>) -> Result<(Seq<char>, int), TokenError> {
    match r {
        Ok(c) => Ok(c@),
        Err(k) => Err(k),
    }
}

/// What `bcrypt::verify` says of a password and a stored hash: whether they
/// match, or `None` when the hash is not a well-formed bcrypt hash.
pub uninterp spec fn bcrypt_verdict(password: Seq<char>, hash: Seq<char>) -> Option<bool>;

/// What `jsonwebtoken::decode` with an HS256 key made from `secret`, the
/// expiry check left out, reads from `token`: its subject and expiry, or why
/// it was refused.
pub uninterp spec fn jwt_claims_of(token: Seq<char>, secret: Seq<char>) -> Result<
    (Seq<char>, int),
    TokenError,
>;

/// Relies on `bcrypt::verify`, which fails only on a hash it cannot read.
#[verifier::external_body]
fn bcrypt_check(password: &str, hash: &str) -> (r: Option<bool>)
    ensures
        r == bcrypt_verdict(password@, hash@),
{
    bcrypt::verify(password, hash).ok()
}

/// Relies on `bcrypt::hash`: the salt is drawn at random, and the hash it
/// returns is one that `bcrypt::verify` accepts for the same password (the
/// hash records its cost and salt, and verify recomputes it with them). It
/// is written by `HashParts::format` as `$2b$`, the cost in two digits, `$`,
/// then the salt and the digest in bcrypt's base64 (22 and 31 characters).
#[verifier::external_body]
fn bcrypt_hash(password: &str, cost: u32) -> (r: Option<String>)
    ensures
        r matches Some(h) ==> bcrypt_verdict(password@, h@) == Some(true),
        r matches Some(h) ==> bcrypt_form(h@, cost as int),
{
    bcrypt::hash(password, cost).ok()
}

/// Relies on `jsonwebtoken::encode` with an HS256 header over the claims
/// `sub` and `exp`. It does not fail here: a key made by `from_secret` is of
/// the family of HS256, HMAC signing always succeeds, and a header and a
/// JSON map always serialise. The token is three base64url parts joined by
/// dots, so it holds no space. It is signed with `secret`, so that
/// `jsonwebtoken::decode` with the same secret reads the same claims back.
#[verifier::external_body]
fn jwt_encode(sub: &str, exp: u64, secret: &str) -> (r: Option<String>)
    ensures
        r is Some,
        r matches Some(t) ==> has_no_space(t@),
        r matches Some(t) ==> token_reads(t@, secret@, sub@, exp as int),
{
    let mut claims = JsonMap::new();
    claims.insert("sub".to_string(), Value::from(sub));
    claims.insert("exp".to_string(), Value::from(exp));
    let key = EncodingKey::from_secret(secret.as_bytes());
    jsonwebtoken::encode(&Header::new(Algorithm::HS256), &claims, &key).ok()
}

/// Relies on `jsonwebtoken::decode` with an HS256 key made from `secret`,
/// with its own expiry check turned off: a bad signature is told apart from
/// every other refusal.
#[verifier::external_body]
fn jwt_decode(token: &str, secret: &str) -> (r: Result<Claims, TokenError>)
    ensures
        claims_view(r) == jwt_claims_of(token@, secret@),
{
    let mut validation = Validation::new(Algorithm::HS256);
    validation.validate_exp = false;
    let key = DecodingKey::from_secret(secret.as_bytes());
    match jsonwebtoken::decode::<JsonMap<String, Value>>(token, &key, &validation) {
        Ok(d) => match (d.claims.get("sub").and_then(Value::as_str), d.claims.get("exp").and_then(Value::as_u64)) {
            (Some(sub), Some(exp)) => Ok(Claims { sub: sub.to_string(), exp }),
            _ => Err(TokenError::Malformed),
        },
        Err(e) => match e.kind() {
            ErrorKind::InvalidSignature => Err(TokenError::InvalidSignature),
            _ => Err(TokenError::Malformed),
        },
    }
}

/// Decoding `token` with `secret` gives subject `sub` and expiry `exp`.
pub open spec fn token_reads(token: Seq<char>, secret: Seq<char>, sub: Seq<char>, exp: int) -> bool {
    jwt_claims_of(token, secret) == Ok::<(Seq<char>, int), TokenError>((sub, exp))
}

/// `s` holds no space character.
pub open spec fn has_no_space(s: Seq<char>) -> bool {
    forall|i: int| 0 <= i < s.len() ==> s[i] != ' '
}

/// A character of bcrypt's base64 alphabet.
pub open spec fn is_bcrypt_char(c: char) -> bool {
    c == '.' || c == '/' || ('A' <= c && c <= 'Z') || ('a' <= c && c <= 'z') || ('0' <= c
        && c <= '9')
}

/// `h` is a self-describing bcrypt hash of cost `cost`: `$2b$`, the cost in
/// two decimal digits, `$`, then 53 characters of salt and digest.
pub open spec fn bcrypt_form(h: Seq<char>, cost: int) -> bool {
    &&& h.len() == 60
    &&& h[0] == '$' && h[1] == '2' && h[2] == 'b' && h[3] == '$'
    &&& h[4] == hex_digit(cost / 10) && h[5] == hex_digit(cost % 10)
    &&& h[6] == '$'
    &&& forall|i: int| 7 <= i < 60 ==> is_bcrypt_char(#[trigger] h[i])
}

/// `hash` is a stored hash that the password matches.
pub open spec fn password_matches(password: Seq<char>, hash: Seq<char>) -> bool {
    bcrypt_verdict(password, hash) == Some(true)
}

/// Hashes a password with a fresh random salt. Whatever hash comes back,
/// verifying the same password against it succeeds.
pub fn hash_password(password: &str) -> (r: Result<String, SBError>)
    ensures
        r matches Ok(h) ==> password_matches(password@, h@),
        r matches Ok(h) ==> bcrypt_form(h@, HASH_COST as int),
        r matches Err(e) ==> internal_failure(e, CREDENTIALS_SERVICE@, HASH_FAILED@),
{
    match bcrypt_hash(password, HASH_COST) {
        Some(h) => Ok(h),
        None => Err(internal_error(CREDENTIALS_SERVICE, HASH_FAILED)),
    }
}

/// Checks a password against a stored hash. A mismatch is `Ok(false)`; only a
/// hash that cannot be read is an error.
pub fn verify_password(password: &str, hash: &str) -> (r: Result<bool, SBError>)
    ensures
        bcrypt_verdict(password@, hash@) matches Some(b) ==> (r matches Ok(x) && x == b),
        bcrypt_verdict(password@, hash@) is None ==> (r matches Err(e) && internal_failure(
            e,
            CREDENTIALS_SERVICE@,
            CORRUPT_CREDENTIAL@,
        )),
{
    match bcrypt_check(password, hash) {
        Some(b) => Ok(b),
        None => Err(internal_error(CREDENTIALS_SERVICE, CORRUPT_CREDENTIAL)),
    }
}

/// The verdict on decoded claims at instant `now`: claims whose expiry has
/// passed are refused as expired; a refusal of the decoder stands.
pub open spec fn token_outcome(decoded: Result<(Seq<char>, int), TokenError>, now: int) -> Result<
    (Seq<char>, int),
    TokenError,
> {
    match decoded {
        Ok((sub, exp)) => if now > exp {
            Err(TokenError::Expired)
        } else {
            Ok((sub, exp))
        },
        Err(k) => Err(k),
    }
}

/// Applies the expiry rule to what the decoder read from a token.
pub fn check_claims(decoded: Result<Claims, TokenError>, now: u64) -> (r: Result<Claims, TokenError>)
    ensures
        claims_view(r) == token_outcome(claims_view(decoded), now as int),
{
    match decoded {
        Ok(c) => if now > c.exp {
            Err(TokenError::Expired)
        } else {
            Ok(c)
        },
        Err(k) => Err(k),
    }
}

/// Checks a token against the secret at instant `now`.
pub fn verify_token_at(token: &str, secret: &str, now: u64) -> (r: Result<Claims, TokenError>)
    ensures
        claims_view(r) == token_outcome(jwt_claims_of(token@, secret@), now as int),
{
    check_claims(jwt_decode(token, secret), now)
}

/// Issues a token for `sub`, signed with `secret`, that expires
/// `TOKEN_LIFETIME_SECS` after `now`.
pub fn issue_token_at(sub: &str, secret: &str, now: u64) -> (r: Result<String, SBError>)
    ensures
        r is Ok <==> now + TOKEN_LIFETIME_SECS <= u64::MAX,
        r matches Ok(t) ==> token_reads(t@, secret@, sub@, now + TOKEN_LIFETIME_SECS),
        r matches Ok(t) ==> has_no_space(t@),
        r matches Err(e) ==> internal_failure(e, CREDENTIALS_SERVICE@, CLOCK_OUT_OF_RANGE@),
{
    let exp = match now.checked_add(TOKEN_LIFETIME_SECS) {
        Some(e) => e,
        None => {
            return Err(internal_error(CREDENTIALS_SERVICE, CLOCK_OUT_OF_RANGE));
        },
    };
    Ok(jwt_encode(sub, exp, secret).unwrap())
}

/// A token issued for `sub` with `secret` at instant `issued` is accepted
/// with the same secret, naming `sub`, at every instant up to its expiry
/// `TOKEN_LIFETIME_SECS` later, and refused as expired at every instant after.
pub proof fn lemma_issued_token_round_trip(
    token: Seq<char>,
    sub: Seq<char>,
    secret: Seq<char>,
    issued: int,
    now: int,
)
    requires
        token_reads(token, secret, sub, issued + TOKEN_LIFETIME_SECS),
    ensures
        now <= issued + TOKEN_LIFETIME_SECS ==> (token_outcome(jwt_claims_of(token, secret), now)
            matches Ok((s, e)) && s == sub && e == issued + TOKEN_LIFETIME_SECS),
        now > issued + TOKEN_LIFETIME_SECS ==> token_outcome(jwt_claims_of(token, secret), now)
            matches Err(TokenError::Expired),
{
}

} // verus!
