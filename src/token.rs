//! Signed, time-boxed bearer tokens carrying a subject.
//!
//! A token is an HS256 JSON Web Token whose payload is `{sub, exp}`. The
//! signature and the payload are handled by `jsonwebtoken`; the expiry is
//! decided here, strictly: a token is accepted only while `now < exp`.
use vstd::prelude::*;
use crate::decimal::{decimal_of, i32_to_decimal};
use jsonwebtoken::errors::ErrorKind;
use serde_json::Value;

verus! {

/// How long an issued token stays valid, in seconds.
pub const TOKEN_TTL_SECONDS: u64 = 86400;

/// The decoded payload of a token whose signature checked out.
#[derive(Clone, Debug, PartialEq, Eq)]
pub struct Claims {
    /// The user id, in decimal.
    pub sub: String,
    /// The instant of expiry, in seconds since the Unix epoch.
    pub exp: u64,
}

/// Why a token was refused.
#[derive(Clone, Copy, Debug, PartialEq, Eq, Structural)]
pub enum TokenError {
    /// The signature does not match the configured secret.
    Forged,
    /// The token cannot be parsed, or its payload lacks `sub` or `exp`.
    Malformed,
    /// The token was presented at or after its expiry instant.
    Expired,
}

/// Why no token could be issued.
#[derive(Clone, Copy, Debug, PartialEq, Eq, Structural)]
pub enum IssueError {
    /// The clock reads before the Unix epoch, or the expiry instant does
    /// not fit in 64 bits.
    ClockOutOfRange,
}

#[verifier::external_type_specification]
#[verifier::external_body]
pub struct ExJwtError(jsonwebtoken::errors::Error);

/// The text of the HS256 token that `jsonwebtoken::encode` writes for the
/// payload `{sub, exp}` under a secret.
pub uninterp spec fn jwt_signed(sub: Seq<char>, exp: u64, secret: Seq<char>) -> Seq<char>;

/// What `jsonwebtoken::decode` makes of a token under a secret, without
/// looking at the expiry: the `sub` and `exp` fields it found, or the reason
/// of its refusal.
pub uninterp spec fn jwt_opened(token: Seq<char>, secret: Seq<char>) -> Result<
    (Option<Seq<char>>, Option<u64>),
    TokenError,
>;

pub open spec fn opened_view(r: Result<(Option<String>, Option<u64>), TokenError>) -> Result<
    (Option<Seq<char>>, Option<u64>),
    TokenError,
> {
    match r {
        Ok((s, e)) => Ok(
            (
                match s {
                    Some(t) => Some(t@),
                    None => None,
                },
                e,
            ),
        ),
        Err(k) => Err(k),
    }
}

/// Decoding produced exactly the payload `{sub: s, exp: e}`.
pub open spec fn opens_to(r: Result<(Option<String>, Option<u64>), TokenError>, s: Seq<char>, e: u64) -> bool {
    match r {
        Ok((Some(t), Some(x))) => t@ == s && x == e,
        _ => false,
    }
}

/// Relies on `jsonwebtoken::encode` with the default header (HS256) and an
/// HMAC key made of the secret's bytes: the token is a function of the
/// payload and the secret. It always succeeds here: the key's family is the
/// header's, a JSON map and the header always serialize, and HMAC signing
/// takes a key of any length.
#[verifier::external_body]
fn jwt_encode(sub: &str, exp: u64, secret: &str) -> (r: Result<String, jsonwebtoken::errors::Error>)
    ensures
        r is Ok,
        r matches Ok(t) ==> t@ == jwt_signed(sub@, exp, secret@),
{
    let mut payload = serde_json::Map::new();
    payload.insert("sub".to_string(), Value::from(sub));
    payload.insert("exp".to_string(), Value::from(exp));
    let key = jsonwebtoken::EncodingKey::from_secret(secret.as_bytes());
    jsonwebtoken::encode(&jsonwebtoken::Header::default(), &payload, &key)
}

/// Relies on `jsonwebtoken::decode` (HS256, expiry check switched off): a
/// bad signature is `InvalidSignature`, anything else it refuses is a parse
/// or claim error; a token that `encode` wrote under the same secret opens
/// to the payload it was written with.
#[verifier::external_body]
fn jwt_decode(token: &str, secret: &str) -> (r: Result<(Option<String>, Option<u64>), TokenError>)
    ensures
        opened_view(r) == jwt_opened(token@, secret@),
        forall|s: Seq<char>, e: u64| #[trigger] jwt_signed(s, e, secret@) == token@ ==> opens_to(r, s, e),
{
    let key = jsonwebtoken::DecodingKey::from_secret(secret.as_bytes());
    let mut check = jsonwebtoken::Validation::default();
    check.validate_exp = false;
    match jsonwebtoken::decode::<serde_json::Map<String, Value>>(token, &key, &check) {
        Ok(mut data) => Ok((
            match data.claims.remove("sub") { Some(Value::String(s)) => Some(s), _ => None },
            match data.claims.remove("exp") { Some(Value::Number(n)) => n.as_u64(), _ => None },
        )),
        Err(e) => match e.kind() {
            ErrorKind::InvalidSignature => Err(TokenError::Forged),
            _ => Err(TokenError::Malformed),
        },
    }
}

/// Relies on `SystemTime::elapsed` of the Unix epoch: the current instant
/// in whole seconds since the epoch, or `None` when the clock reads before
/// it. Nothing is known of its value.
#[verifier::external_body]
fn unix_now() -> (r: Option<u64>) {
    std::time::UNIX_EPOCH.elapsed().ok().map(|d| d.as_secs())
}

/// The verdict on an opened token at instant `now`.
pub open spec fn claims_verdict(
    opened: Result<(Option<Seq<char>>, Option<u64>), TokenError>,
    now: u64,
) -> Result<(Seq<char>, u64), TokenError> {
    match opened {
        Err(k) => Err(k),
        Ok((Some(s), Some(e))) => if now < e {
            Ok((s, e))
        } else {
            Err(TokenError::Expired)
        },
        Ok(_) => Err(TokenError::Malformed),
    }
}

pub open spec fn claims_view(r: Result<Claims, TokenError>) -> Result<(Seq<char>, u64), TokenError> {
    match r {
        Ok(c) => Ok((c.sub@, c.exp)),
        Err(k) => Err(k),
    }
}

/// The claims of a token at instant `now`, given what decoding produced.
pub fn check_opened(opened: Result<(Option<String>, Option<u64>), TokenError>, now: u64) -> (r: Result<Claims, TokenError>)
    ensures
        claims_view(r) == claims_verdict(opened_view(opened), now),
{
    match opened {
        Err(k) => Err(k),
        Ok((Some(sub), Some(exp))) => {
            if now < exp {
                Ok(Claims { sub, exp })
            } else {
                Err(TokenError::Expired)
            }
        },
        Ok(_) => Err(TokenError::Malformed),
    }
}

/// Validates a token against the secret at instant `now`: the signature
/// first, then the payload, then the expiry, with no leeway.
pub fn decode_jwt_at(token: &str, secret: &str, now: u64) -> (r: Result<Claims, TokenError>)
    ensures
        claims_view(r) == claims_verdict(jwt_opened(token@, secret@), now),
        forall|s: Seq<char>, e: u64|
            #[trigger] jwt_signed(s, e, secret@) == token@ ==> (now < e ==> claims_view(r) == Ok::<
                (Seq<char>, u64),
                TokenError,
            >((s, e))) && (e <= now ==> r == Err::<Claims, TokenError>(TokenError::Expired)),
{
    let opened = jwt_decode(token, secret);
    check_opened(opened, now)
}

/// Validates a token against the secret at the current instant; a clock
/// that reads before the epoch counts as the epoch.
pub fn decode_jwt(token: &str, secret: &str) -> (r: Result<Claims, TokenError>)
    ensures
        exists|now: u64| claims_view(r) == claims_verdict(jwt_opened(token@, secret@), now),
{
    let now: u64 = match unix_now() {
        Some(t) => t,
        None => 0,
    };
    let r = decode_jwt_at(token, secret, now);
    assert(claims_view(r) == claims_verdict(jwt_opened(token@, secret@), now));
    r
}

/// The token issued at instant `now` for a user: subject the user id in
/// decimal, expiry `now` plus the time to live.
pub open spec fn issued_token(user_id: i32, now: u64, secret: Seq<char>) -> Seq<char> {
    jwt_signed(decimal_of(user_id as int), (now + TOKEN_TTL_SECONDS) as u64, secret)
}

/// Issues a token for a user at instant `now`. It succeeds exactly when
/// the expiry instant fits in 64 bits, and the token depends on the user
/// id, the secret and `now` alone.
pub fn generate_jwt_at(user_id: i32, secret: &str, now: u64) -> (r: Result<String, IssueError>)
    ensures
        now > u64::MAX - TOKEN_TTL_SECONDS ==> r == Err::<String, IssueError>(IssueError::ClockOutOfRange),
        now <= u64::MAX - TOKEN_TTL_SECONDS ==> (r matches Ok(t) && t@ == issued_token(user_id, now, secret@)),
{
    if now > u64::MAX - TOKEN_TTL_SECONDS {
        return Err(IssueError::ClockOutOfRange);
    }
    let exp = now + TOKEN_TTL_SECONDS;
    let sub = i32_to_decimal(user_id);
    Ok(jwt_encode(sub.as_str(), exp, secret).unwrap())
}

/// Issues a token for a user at the current instant. The only failure is a
/// clock that reads before the epoch or too close to the end of time.
pub fn generate_jwt(user_id: i32, secret: &str) -> (r: Result<String, IssueError>)
    ensures
        r matches Ok(t) ==> exists|now: u64| now <= u64::MAX - TOKEN_TTL_SECONDS && t@ == issued_token(user_id, now, secret@),
        r matches Err(e) ==> e == IssueError::ClockOutOfRange,
{
    let now = match unix_now() {
        Some(t) => t,
        None => return Err(IssueError::ClockOutOfRange),
    };
    let r = generate_jwt_at(user_id, secret, now);
    proof {
        if let Ok(tok) = &r {
            assert(tok@ == issued_token(user_id, now, secret@));
        }
    }
    r
}

} // verus!
