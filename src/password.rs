//! One-way password hashing with bcrypt. A digest embeds its own salt and
//! cost, so checking a password needs only the password and the digest.
use vstd::prelude::*;
use crate::decimal::digit_char;

verus! {

/// The cost factor used when configuration names none.
pub const DEFAULT_COST: u32 = 12;

/// The smallest cost factor bcrypt accepts.
pub const MIN_COST: u32 = 4;

/// The largest cost factor bcrypt accepts.
pub const MAX_COST: u32 = 31;

/// Why no digest was produced.
#[derive(Clone, Copy, Debug, PartialEq, Eq, Structural)]
pub enum HashError {
    /// The cost factor lies outside `MIN_COST..=MAX_COST`.
    CostNotAllowed,
    /// The hashing itself failed (no randomness for the salt).
    Failed,
}

#[verifier::external_type_specification]
#[verifier::external_body]
pub struct ExBcryptError(bcrypt::BcryptError);

/// What `bcrypt::verify` answers for a password and a stored digest: `None`
/// where the digest cannot be read, else whether the password matches.
pub uninterp spec fn bcrypt_verdict(password: Seq<char>, digest: Seq<char>) -> Option<bool>;

/// The password is accepted against the digest.
pub open spec fn password_matches(password: Seq<char>, digest: Seq<char>) -> bool {
    bcrypt_verdict(password, digest) == Some(true)
}

/// A bcrypt digest as `bcrypt::hash` writes it: `$2b$`, the cost in two
/// digits, `$`, then 22 characters of salt and 31 of hash, 60 in all.
pub open spec fn digest_shape(h: Seq<char>, cost: u32) -> bool {
    &&& h.len() == 60
    &&& h.subrange(0, 4) == "$2b$"@
    &&& h[4] == digit_char(cost as int / 10)
    &&& h[5] == digit_char(cost as int % 10)
    &&& h[6] == '$'
}

/// Relies on `bcrypt::hash`: a fresh random salt; the digest it returns is
/// one that `bcrypt::verify` accepts for the same password, since `verify`
/// re-hashes with the digest's own salt and cost. The digest is formatted
/// by `HashParts::format_for_version` with version `2b` (a cost it accepts
/// lies in `4..=31`, so `{:02}` writes two digits).
#[verifier::external_body]
fn bcrypt_hash(password: &str, cost: u32) -> (r: Result<String, bcrypt::BcryptError>)
    ensures
        r matches Ok(h) ==> bcrypt_verdict(password@, h@) == Some(true),
        r matches Ok(h) ==> digest_shape(h@, cost),
{
    bcrypt::hash(password, cost)
}

/// Relies on `bcrypt::verify`: an error (unreadable digest) becomes `None`.
#[verifier::external_body]
fn bcrypt_verify(password: &str, digest: &str) -> (r: Option<bool>)
    ensures
        r == bcrypt_verdict(password@, digest@),
{
    bcrypt::verify(password, digest).ok()
}

/// Hashes a password with the given cost factor.
pub fn hash_password(password: &str, cost: u32) -> (r: Result<String, HashError>)
    ensures
        (cost < MIN_COST || cost > MAX_COST) <==> r == Err::<String, HashError>(HashError::CostNotAllowed),
        r matches Ok(h) ==> password_matches(password@, h@) && digest_shape(h@, cost),
{
    if cost < MIN_COST || cost > MAX_COST {
        return Err(HashError::CostNotAllowed);
    }
    match bcrypt_hash(password, cost) {
        Ok(h) => Ok(h),
        Err(_) => Err(HashError::Failed),
    }
}

/// Checks a password against a stored digest. A digest that cannot be read
/// never accepts.
pub fn verify_password(password: &str, hash: &str) -> (r: bool)
    ensures
        r == password_matches(password@, hash@),
{
    match bcrypt_verify(password, hash) {
        Some(ok) => ok,
        None => false,
    }
}

} // verus!
