//! Resolution of the caller's identity from a bearer token: validate the
//! token, read the user id from its subject, and load that user. Every
//! refusal looks the same to the caller.
use vstd::prelude::*;
use crate::decimal::{decimal_of, lemma_i32_decimal_round_trip, parse_i32, parsed_i32};
use crate::store::{first_with_id, UserStore};
use crate::token::{claims_verdict, decode_jwt_at, jwt_opened, jwt_signed};
use crate::user::Model;

verus! {

/// Why no identity was resolved.
#[derive(Clone, Copy, Debug, PartialEq, Eq, Structural)]
pub enum IdentityError {
    /// No token, a forged, malformed or expired token, a subject that is no
    /// user id, or no such user.
    Unauthorized,
    /// The user lookup itself failed.
    Internal,
}

/// The user on whose behalf a request runs.
#[derive(Clone, Debug, PartialEq, Eq)]
pub struct CurrentUser(pub Model);

/// The user on whose behalf a request runs, where anonymous callers are
/// allowed.
#[derive(Clone, Debug, PartialEq, Eq)]
pub struct MaybeCurrentUser(pub Option<Model>);

pub open spec fn bearer_view(bearer: Option<&str>) -> Option<Seq<char>> {
    match bearer {
        Some(t) => Some(t@),
        None => None,
    }
}

/// The user id that a presented token names at instant `now`.
pub open spec fn bearer_verdict(bearer: Option<Seq<char>>, secret: Seq<char>, now: u64) -> Result<i32, IdentityError> {
    match bearer {
        None => Err(IdentityError::Unauthorized),
        Some(t) => match claims_verdict(jwt_opened(t, secret), now) {
            Err(_) => Err(IdentityError::Unauthorized),
            Ok((sub, _)) => match parsed_i32(sub) {
                Some(id) => Ok(id),
                None => Err(IdentityError::Unauthorized),
            },
        },
    }
}

/// The stored user with id `id`, or a refusal when there is none.
pub open spec fn stored_user(users: Seq<Model>, id: i32) -> Result<Model, IdentityError> {
    match first_with_id(users, id) {
        Some(u) => Ok(u),
        None => Err(IdentityError::Unauthorized),
    }
}

/// The user that a presented token resolves to among `users`.
pub open spec fn identity_verdict(users: Seq<Model>, bearer: Option<Seq<char>>, secret: Seq<char>, now: u64) -> Result<Model, IdentityError> {
    match bearer_verdict(bearer, secret, now) {
        Err(e) => Err(e),
        Ok(id) => stored_user(users, id),
    }
}

pub open spec fn current_view(r: Result<CurrentUser, IdentityError>) -> Result<Model, IdentityError> {
    match r {
        Ok(c) => Ok(c.0),
        Err(e) => Err(e),
    }
}

/// The user id named by a bearer token at instant `now`: steps one to three
/// of resolution, before the user is looked up.
pub fn user_id_from_bearer(bearer: Option<&str>, secret: &str, now: u64) -> (r: Result<i32, IdentityError>)
    ensures
        r == bearer_verdict(bearer_view(bearer), secret@, now),
        forall|u: i32, e: u64|
            bearer_view(bearer) == Some(#[trigger] jwt_signed(decimal_of(u as int), e, secret@)) && now < e
                ==> r == Ok::<i32, IdentityError>(u),
{
    let token = match bearer {
        Some(t) => t,
        None => return Err(IdentityError::Unauthorized),
    };
    let claims = match decode_jwt_at(token, secret, now) {
        Ok(c) => c,
        Err(_) => return Err(IdentityError::Unauthorized),
    };
    let r = match parse_i32(claims.sub.as_str()) {
        Some(id) => Ok(id),
        None => Err(IdentityError::Unauthorized),
    };
    proof {
        assert forall|u: i32, e: u64|
            bearer_view(bearer) == Some(#[trigger] jwt_signed(decimal_of(u as int), e, secret@)) && now < e
                implies r == Ok::<i32, IdentityError>(u) by {
            lemma_i32_decimal_round_trip(u);
        }
    }
    r
}

impl CurrentUser {
    /// The last step of resolution, given what looking up the user gave: a
    /// missing user is refused as unauthorized, a failed lookup as internal.
    pub fn from_lookup<E>(lookup: Result<Option<Model>, E>) -> (r: Result<CurrentUser, IdentityError>)
        ensures
            match lookup {
                Ok(Some(u)) => current_view(r) == Ok::<Model, IdentityError>(u),
                Ok(None) => r == Err::<CurrentUser, IdentityError>(IdentityError::Unauthorized),
                Err(_) => r == Err::<CurrentUser, IdentityError>(IdentityError::Internal),
            },
    {
        match lookup {
            Ok(Some(u)) => Ok(CurrentUser(u)),
            Ok(None) => Err(IdentityError::Unauthorized),
            Err(_) => Err(IdentityError::Internal),
        }
    }

    /// Resolves the caller of a request from its bearer token at instant
    /// `now`, looking the user up in `store`.
    pub fn resolve(store: &UserStore, bearer: Option<&str>, secret: &str, now: u64) -> (r: Result<CurrentUser, IdentityError>)
        ensures
            current_view(r) == identity_verdict(store@, bearer_view(bearer), secret@, now),
            forall|u: i32, e: u64|
                bearer_view(bearer) == Some(#[trigger] jwt_signed(decimal_of(u as int), e, secret@)) && now < e
                    ==> current_view(r) == stored_user(store@, u),
    {
        let id = user_id_from_bearer(bearer, secret, now);
        let r = match id {
            Err(e) => Err(e),
            Ok(id) => {
                let found = store.find_by_id(id);
                let lookup: Result<Option<Model>, ()> = Ok(found);
                CurrentUser::from_lookup(lookup)
            },
        };
        proof {
            assert forall|u: i32, e: u64|
                bearer_view(bearer) == Some(#[trigger] jwt_signed(decimal_of(u as int), e, secret@)) && now < e
                    implies current_view(r) == stored_user(store@, u) by {
                assert(id == Ok::<i32, IdentityError>(u));
            }
        }
        r
    }
}

impl MaybeCurrentUser {
    /// Turns any refusal into an anonymous caller.
    pub fn from_resolution(r: Result<CurrentUser, IdentityError>) -> (m: MaybeCurrentUser)
        ensures
            m.0 == match current_view(r) {
                Ok(u) => Some(u),
                Err(_) => None,
            },
    {
        match r {
            Ok(CurrentUser(u)) => MaybeCurrentUser(Some(u)),
            Err(_) => MaybeCurrentUser(None),
        }
    }

    /// Resolves the caller if the token allows, else yields no identity. The
    /// result depends on the store's users, the token, the secret and `now`
    /// alone, so resolving twice gives the same identity.
    pub fn resolve(store: &UserStore, bearer: Option<&str>, secret: &str, now: u64) -> (m: MaybeCurrentUser)
        ensures
            m.0 == match identity_verdict(store@, bearer_view(bearer), secret@, now) {
                Ok(u) => Some(u),
                Err(_) => None,
            },
            forall|u: i32, e: u64|
                bearer_view(bearer) == Some(#[trigger] jwt_signed(decimal_of(u as int), e, secret@)) && now < e
                    ==> m.0 == first_with_id(store@, u),
    {
        MaybeCurrentUser::from_resolution(CurrentUser::resolve(store, bearer, secret, now))
    }
}

} // verus!
