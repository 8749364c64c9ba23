//! The registration and login flows, and the profile of the caller.
use vstd::prelude::*;
use crate::identity::{bearer_view, identity_verdict, CurrentUser, IdentityError};
use crate::password::{digest_shape, hash_password, password_matches, verify_password};
use crate::store::{
    first_with_id, first_with_identifier, identity_taken, insert_verdict, stored_record,
    InsertError, UserStore,
};
use crate::decimal::decimal_of;
use crate::token::{generate_jwt_at, issued_token, jwt_signed, TOKEN_TTL_SECONDS};
use crate::user::{
    copy_text, login_violations, profiles, projects, signup_violations, AccountType, Field,
    LoginRequest, LoginResponse, Model, NewUser, SignShow, SignUp, UserMeResponse,
};

verus! {

/// Why a flow failed.
#[derive(Clone, Debug, PartialEq, Eq)]
pub enum AuthError {
    /// The registration payload breaks the constraints of these fields.
    Validation(Vec<Field>),
    /// The login payload breaks the constraints of these fields.
    BadRequest(Vec<Field>),
    /// The email or the username is taken.
    Conflict,
    /// Bad credentials or a bad token; never says which.
    Unauthorized,
    /// Hashing, signing or storage failed.
    Internal,
}

impl AuthError {
    /// The HTTP status answered for this error.
    pub fn status_code(&self) -> (r: u16)
        ensures
            r == match *self {
                AuthError::Validation(_) => 422u16,
                AuthError::BadRequest(_) => 400u16,
                AuthError::Conflict => 409u16,
                AuthError::Unauthorized => 401u16,
                AuthError::Internal => 500u16,
            },
    {
        match self {
            AuthError::Validation(_) => 422,
            AuthError::BadRequest(_) => 400,
            AuthError::Conflict => 409,
            AuthError::Unauthorized => 401,
            AuthError::Internal => 500,
        }
    }

    /// The message answered for this error: the same for every
    /// authentication failure, and free of internal detail.
    pub fn message(&self) -> (r: &'static str)
        ensures
            r@ == match *self {
                AuthError::Validation(_) => "Validation error"@,
                AuthError::BadRequest(_) => "Validation error"@,
                AuthError::Conflict => "Email or username already taken"@,
                AuthError::Unauthorized => "Invalid credentials"@,
                AuthError::Internal => "Internal server error"@,
            },
    {
        match self {
            AuthError::Validation(_) => "Validation error",
            AuthError::BadRequest(_) => "Validation error",
            AuthError::Conflict => "Email or username already taken",
            AuthError::Unauthorized => "Invalid credentials",
            AuthError::Internal => "Internal server error",
        }
    }
}

/// The user to store for a registration payload whose password hashed to
/// `digest`.
pub open spec fn new_user_of(s: SignUp, digest: String) -> NewUser {
    NewUser {
        username: s.username,
        email: s.email,
        password_hash: digest,
        first_name: s.first_name,
        last_name: s.last_name,
        avatar_url: s.avatar_url,
        account_type: AccountType::Attendee,
    }
}

/// `show` presents the registration payload under id `id`.
pub open spec fn shows_signup(show: SignShow, id: i32, s: SignUp) -> bool {
    show.id == id && show.username == s.username && show.email == s.email && show.first_name
        == s.first_name && show.last_name == s.last_name && show.avatar_url == s.avatar_url
}

/// The user to store for a registration whose password hashed to `digest`.
pub fn new_user_for(signup: &SignUp, digest: String) -> (r: NewUser)
    ensures
        r == new_user_of(*signup, digest),
{
    NewUser {
        username: signup.username.clone(),
        email: signup.email.clone(),
        password_hash: digest,
        first_name: copy_text(&signup.first_name),
        last_name: copy_text(&signup.last_name),
        avatar_url: copy_text(&signup.avatar_url),
        account_type: AccountType::Attendee,
    }
}

/// The answer to a registration, given what storing the user gave: a
/// uniqueness violation is a conflict, any other failure is internal.
pub fn signup_outcome(signup: SignUp, stored: Result<i32, InsertError>) -> (r: Result<SignShow, AuthError>)
    ensures
        match stored {
            Ok(id) => r matches Ok(show) && shows_signup(show, id, signup),
            Err(InsertError::UniqueViolation) => r is Err && r->Err_0 is Conflict,
            Err(InsertError::IdsExhausted) => r is Err && r->Err_0 is Internal,
        },
{
    match stored {
        Ok(id) => Ok(SignShow {
            id,
            username: signup.username,
            first_name: signup.first_name,
            last_name: signup.last_name,
            email: signup.email,
            avatar_url: signup.avatar_url,
        }),
        Err(InsertError::UniqueViolation) => Err(AuthError::Conflict),
        Err(InsertError::IdsExhausted) => Err(AuthError::Internal),
    }
}

/// Stores a registration whose password already hashed to `digest`, and
/// returns its public projection.
pub fn register_hashed(store: &mut UserStore, signup: SignUp, digest: String, now: i64) -> (r: Result<SignShow, AuthError>)
    requires
        old(store).wf(),
    ensures
        final(store).wf(),
        match insert_verdict(old(store)@, old(store).next_id(), signup.email@, signup.username@) {
            Ok(id) => (r matches Ok(show) && shows_signup(show, id, signup)) && final(store)@ == old(store)@.push(
                stored_record(new_user_of(signup, digest), id, now),
            ),
            Err(InsertError::UniqueViolation) => r is Err && r->Err_0 is Conflict && final(store)@ == old(store)@,
            Err(InsertError::IdsExhausted) => r is Err && r->Err_0 is Internal && final(store)@ == old(store)@,
        },
{
    let new = new_user_for(&signup, digest);
    let stored = store.insert(new, now);
    signup_outcome(signup, stored)
}

/// Hashes the password with cost `cost` and stores the new user.
pub fn create_user(store: &mut UserStore, signup: SignUp, cost: u32, now: i64) -> (r: Result<SignShow, AuthError>)
    requires
        old(store).wf(),
    ensures
        final(store).wf(),
        r is Err ==> final(store)@ == old(store)@,
        r matches Ok(show) ==> exists|digest: String|
            #[trigger] password_matches(signup.password@, digest@) && digest_shape(digest@, cost) && shows_signup(show, old(store).next_id() as i32, signup)
                && final(store)@ == old(store)@.push(
                stored_record(new_user_of(signup, digest), old(store).next_id() as i32, now),
            ),
        r matches Err(e) ==> e is Conflict || e is Internal,
        r matches Err(e) && e is Conflict ==> identity_taken(old(store)@, signup.email@, signup.username@),
        identity_taken(old(store)@, signup.email@, signup.username@) ==> r is Err,
        (cost < crate::password::MIN_COST || cost > crate::password::MAX_COST) ==> r is Err && r->Err_0 is Internal,
{
    let digest = match hash_password(signup.password.as_str(), cost) {
        Ok(h) => h,
        Err(_) => return Err(AuthError::Internal),
    };
    let ghost d = digest;
    let r = register_hashed(store, signup, digest, now);
    proof {
        if r is Ok {
            assert(password_matches(signup.password@, d@) && digest_shape(d@, cost));
        }
    }
    r
}

/// The registration flow: checks the payload's fields, then creates the
/// user.
pub fn signup(store: &mut UserStore, payload: SignUp, cost: u32, now: i64) -> (r: Result<SignShow, AuthError>)
    requires
        old(store).wf(),
    ensures
        final(store).wf(),
        r is Err ==> final(store)@ == old(store)@,
        signup_violations(payload).len() > 0 <==> (r matches Err(AuthError::Validation(v)) && v@ == signup_violations(payload)),
        r matches Ok(show) ==> signup_violations(payload).len() == 0 && exists|digest: String|
            #[trigger] password_matches(payload.password@, digest@) && digest_shape(digest@, cost) && shows_signup(show, old(store).next_id() as i32, payload)
                && final(store)@ == old(store)@.push(
                stored_record(new_user_of(payload, digest), old(store).next_id() as i32, now),
            ),
        r matches Err(e) && e is Conflict ==> identity_taken(old(store)@, payload.email@, payload.username@),
        identity_taken(old(store)@, payload.email@, payload.username@) ==> r is Err,
{
    match payload.validate() {
        Err(v) => Err(AuthError::Validation(v)),
        Ok(()) => create_user(store, payload, cost, now),
    }
}

/// The outcome of a login attempt against the users of a store.
pub open spec fn credentials_accepted(users: Seq<Model>, identifier: Seq<char>, password: Seq<char>) -> Option<Model> {
    match first_with_identifier(users, identifier) {
        Some(u) => if password_matches(password, u.password@) {
            Some(u)
        } else {
            None
        },
        None => None,
    }
}

/// Checks a password against the user that the identifier found, if any.
/// Both failures give the same error.
pub fn check_credentials(found: Option<Model>, password: &str) -> (r: Result<SignShow, AuthError>)
    ensures
        match found {
            Some(u) => if password_matches(password@, u.password@) {
                r matches Ok(show) && projects(show, u)
            } else {
                r is Err && r->Err_0 is Unauthorized
            },
            None => r is Err && r->Err_0 is Unauthorized,
        },
{
    match found {
        None => Err(AuthError::Unauthorized),
        Some(u) => {
            if verify_password(password, u.password.as_str()) {
                Ok(SignShow::from_model(&u))
            } else {
                Err(AuthError::Unauthorized)
            }
        },
    }
}

/// Finds the user by email or username and checks the password.
pub fn authenticate_user(store: &UserStore, identifier: &str, password: &str) -> (r: Result<SignShow, AuthError>)
    ensures
        match credentials_accepted(store@, identifier@, password@) {
            Some(u) => r matches Ok(show) && projects(show, u),
            None => r is Err && r->Err_0 is Unauthorized,
        },
{
    let found = store.find_by_identifier(identifier);
    check_credentials(found, password)
}

/// The public projection of the user with this id.
pub fn get_user_by_id(store: &UserStore, user_id: i32) -> (r: Result<SignShow, AuthError>)
    ensures
        match first_with_id(store@, user_id) {
            Some(u) => r matches Ok(show) && projects(show, u),
            None => r is Err && r->Err_0 is Unauthorized,
        },
{
    match store.find_by_id(user_id) {
        Some(u) => Ok(SignShow::from_model(&u)),
        None => Err(AuthError::Unauthorized),
    }
}

/// The answer to a login whose identifier found `found`: the password is
/// checked, then a token is issued at instant `now`.
pub fn issue_login(found: Option<Model>, password: &str, secret: &str, now: u64) -> (r: Result<LoginResponse, AuthError>)
    ensures
        match found {
            Some(u) => if password_matches(password@, u.password@) {
                if now <= u64::MAX - TOKEN_TTL_SECONDS {
                    r matches Ok(resp) && resp.id == u.id && resp.username == u.username && resp.email == u.email
                        && resp.access_token@ == issued_token(u.id, now, secret@)
                } else {
                    r is Err && r->Err_0 is Internal
                }
            } else {
                r is Err && r->Err_0 is Unauthorized
            },
            None => r is Err && r->Err_0 is Unauthorized,
        },
        now > u64::MAX - TOKEN_TTL_SECONDS ==> r is Err,
{
    let user = match check_credentials(found, password) {
        Ok(u) => u,
        Err(e) => return Err(e),
    };
    let token = match generate_jwt_at(user.id, secret, now) {
        Ok(t) => t,
        Err(_) => return Err(AuthError::Internal),
    };
    Ok(LoginResponse { id: user.id, username: user.username, email: user.email, access_token: token })
}

/// The login flow at instant `now`: checks the payload's fields, the
/// credentials, and issues a token for the user.
pub fn login(store: &UserStore, payload: &LoginRequest, secret: &str, now: u64) -> (r: Result<LoginResponse, AuthError>)
    ensures
        login_violations(*payload).len() > 0 <==> (r matches Err(AuthError::BadRequest(v)) && v@ == login_violations(*payload)),
        login_violations(*payload).len() == 0 ==> match credentials_accepted(store@, payload.identifier@, payload.password@) {
            None => r is Err && r->Err_0 is Unauthorized,
            Some(u) => if now <= u64::MAX - TOKEN_TTL_SECONDS {
                r matches Ok(resp) && resp.id == u.id && resp.username == u.username && resp.email == u.email
                    && resp.access_token@ == issued_token(u.id, now, secret@)
            } else {
                r is Err && r->Err_0 is Internal
            },
        },
        now > u64::MAX - TOKEN_TTL_SECONDS ==> r is Err,
{
    match payload.validate() {
        Err(v) => return Err(AuthError::BadRequest(v)),
        Ok(()) => {},
    }
    let found = store.find_by_identifier(payload.identifier.as_str());
    issue_login(found, payload.password.as_str(), secret, now)
}

/// The profile of the caller identified by a bearer token at instant `now`.
pub fn get_me(store: &UserStore, bearer: Option<&str>, secret: &str, now: u64) -> (r: Result<UserMeResponse, IdentityError>)
    ensures
        match identity_verdict(store@, bearer_view(bearer), secret@, now) {
            Ok(u) => r matches Ok(me) && profiles(me, u),
            Err(e) => r == Err::<UserMeResponse, IdentityError>(e),
        },
        forall|u: i32, e: u64|
            bearer_view(bearer) == Some(#[trigger] jwt_signed(decimal_of(u as int), e, secret@)) && now < e
                ==> match first_with_id(store@, u) {
                Some(m) => r matches Ok(me) && profiles(me, m),
                None => r == Err::<UserMeResponse, IdentityError>(IdentityError::Unauthorized),
            },
{
    match CurrentUser::resolve(store, bearer, secret, now) {
        Ok(CurrentUser(u)) => Ok(UserMeResponse::from_model(&u)),
        Err(e) => Err(e),
    }
}

} // verus!
