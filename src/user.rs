//! The user record, the payloads of the registration and login flows, and
//! the outward projections of a user, none of which can carry the password.
use vstd::prelude::*;
use vstd::string::*;

verus! {

/// Which subtype extends a user.
#[derive(Clone, Copy, Debug, PartialEq, Eq, Structural)]
pub enum AccountType {
    Attendee,
    Host,
}

/// A stored user. Timestamps are seconds since the Unix epoch.
#[derive(Clone, Debug, PartialEq, Eq)]
pub struct Model {
    pub id: i32,
    pub username: String,
    pub email: String,
    /// The bcrypt digest of the password.
    pub password: String,
    pub first_name: Option<String>,
    pub last_name: Option<String>,
    pub account_type: AccountType,
    pub avatar_url: Option<String>,
    pub is_active: bool,
    pub created_at: i64,
    pub updated_at: i64,
}

/// A user about to be stored: everything but the id and timestamps.
#[derive(Clone, Debug, PartialEq, Eq)]
pub struct NewUser {
    pub username: String,
    pub email: String,
    pub password_hash: String,
    pub first_name: Option<String>,
    pub last_name: Option<String>,
    pub avatar_url: Option<String>,
    pub account_type: AccountType,
}

/// A registration payload.
#[derive(Clone, Debug, PartialEq, Eq)]
pub struct SignUp {
    pub username: String,
    pub email: String,
    pub password: String,
    pub first_name: Option<String>,
    pub last_name: Option<String>,
    pub avatar_url: Option<String>,
}

/// The public projection of a user returned by registration and login.
#[derive(Clone, Debug, PartialEq, Eq)]
pub struct SignShow {
    pub id: i32,
    pub username: String,
    pub first_name: Option<String>,
    pub last_name: Option<String>,
    pub email: String,
    pub avatar_url: Option<String>,
}

/// A login payload: an email or a username, and a password.
#[derive(Clone, Debug, PartialEq, Eq)]
pub struct LoginRequest {
    pub identifier: String,
    pub password: String,
}

/// The answer to a successful login.
#[derive(Clone, Debug, PartialEq, Eq)]
pub struct LoginResponse {
    pub id: i32,
    pub username: String,
    pub email: String,
    pub access_token: String,
}

/// The profile of the caller.
#[derive(Clone, Debug, PartialEq, Eq)]
pub struct UserMeResponse {
    pub id: i32,
    pub username: String,
    pub email: String,
    pub first_name: Option<String>,
    pub last_name: Option<String>,
    pub avatar_url: Option<String>,
}

/// A payload field that failed its constraint.
#[derive(Clone, Copy, Debug, PartialEq, Eq, Structural)]
pub enum Field {
    Username,
    Email,
    Password,
    AvatarUrl,
    Identifier,
}

/// The fewest characters a password may have.
pub const MIN_PASSWORD_CHARS: usize = 8;

/// Whether `validator` accepts the text as an email address.
pub uninterp spec fn email_is_valid(s: Seq<char>) -> bool;

/// Whether `validator` accepts the text as a URL.
pub uninterp spec fn url_is_valid(s: Seq<char>) -> bool;

/// Relies on `validator::ValidateEmail` for `&str`: an empty text, or one
/// without `@`, is refused before any pattern is tried.
#[verifier::external_body]
fn check_email(s: &str) -> (r: bool)
    ensures
        r == email_is_valid(s@),
        s@.len() == 0 ==> !r,
        !s@.contains('@') ==> !r,
{
    validator::ValidateEmail::validate_email(&s)
}

/// Relies on `validator::ValidateUrl` for `str`, which asks `url::Url::parse`.
#[verifier::external_body]
fn check_url(s: &str) -> (r: bool)
    ensures
        r == url_is_valid(s@),
{
    validator::ValidateUrl::validate_url(s)
}

/// The fields of a registration payload that break their constraints, in
/// the order username, email, password, avatar URL.
pub open spec fn signup_violations(s: SignUp) -> Seq<Field> {
    (if s.username@.len() == 0 { seq![Field::Username] } else { seq![] }).add(
        if !email_is_valid(s.email@) { seq![Field::Email] } else { seq![] },
    ).add(
        if s.password@.len() < MIN_PASSWORD_CHARS { seq![Field::Password] } else { seq![] },
    ).add(
        match s.avatar_url {
            Some(u) => if !url_is_valid(u@) { seq![Field::AvatarUrl] } else { seq![] },
            None => seq![],
        },
    )
}

/// The fields of a login payload that break their constraints.
pub open spec fn login_violations(l: LoginRequest) -> Seq<Field> {
    (if l.identifier@.len() == 0 { seq![Field::Identifier] } else { seq![] }).add(
        if l.password@.len() < MIN_PASSWORD_CHARS { seq![Field::Password] } else { seq![] },
    )
}

/// A copy of an optional text.
pub fn copy_text(o: &Option<String>) -> (r: Option<String>)
    ensures
        r == *o,
{
    match o {
        Some(s) => Some(s.clone()),
        None => None,
    }
}

impl Model {
    /// A copy of the record.
    pub fn duplicate(&self) -> (r: Model)
        ensures
            r == *self,
    {
        Model {
            id: self.id,
            username: self.username.clone(),
            email: self.email.clone(),
            password: self.password.clone(),
            first_name: copy_text(&self.first_name),
            last_name: copy_text(&self.last_name),
            account_type: self.account_type,
            avatar_url: copy_text(&self.avatar_url),
            is_active: self.is_active,
            created_at: self.created_at,
            updated_at: self.updated_at,
        }
    }
}

impl SignUp {
    /// Checks the field constraints: a non-empty username, a well-formed
    /// email, a password of at least `MIN_PASSWORD_CHARS` characters, and a
    /// well-formed avatar URL when one is given.
    pub fn validate(&self) -> (r: Result<(), Vec<Field>>)
        ensures
            r is Ok <==> signup_violations(*self).len() == 0,
            r matches Err(v) ==> v@ == signup_violations(*self),
    {
        let mut v: Vec<Field> = Vec::new();
        if self.username.as_str().unicode_len() == 0 {
            v.push(Field::Username);
        }
        if !check_email(self.email.as_str()) {
            v.push(Field::Email);
        }
        if self.password.as_str().unicode_len() < MIN_PASSWORD_CHARS {
            v.push(Field::Password);
        }
        match &self.avatar_url {
            Some(u) => {
                if !check_url(u.as_str()) {
                    v.push(Field::AvatarUrl);
                }
            },
            None => {},
        }
        assert(v@ =~= signup_violations(*self));
        if v.len() == 0 {
            Ok(())
        } else {
            Err(v)
        }
    }
}

impl LoginRequest {
    /// Checks the field constraints: a non-empty identifier and a password
    /// of at least `MIN_PASSWORD_CHARS` characters.
    pub fn validate(&self) -> (r: Result<(), Vec<Field>>)
        ensures
            r is Ok <==> login_violations(*self).len() == 0,
            r matches Err(v) ==> v@ == login_violations(*self),
    {
        let mut v: Vec<Field> = Vec::new();
        if self.identifier.as_str().unicode_len() == 0 {
            v.push(Field::Identifier);
        }
        if self.password.as_str().unicode_len() < MIN_PASSWORD_CHARS {
            v.push(Field::Password);
        }
        assert(v@ =~= login_violations(*self));
        if v.len() == 0 {
            Ok(())
        } else {
            Err(v)
        }
    }
}

/// `show` is the public projection of `m`.
pub open spec fn projects(show: SignShow, m: Model) -> bool {
    show.id == m.id && show.username == m.username && show.email == m.email && show.first_name
        == m.first_name && show.last_name == m.last_name && show.avatar_url == m.avatar_url
}

/// `me` is the profile of `m`.
pub open spec fn profiles(me: UserMeResponse, m: Model) -> bool {
    me.id == m.id && me.username == m.username && me.email == m.email && me.first_name
        == m.first_name && me.last_name == m.last_name && me.avatar_url == m.avatar_url
}

impl SignShow {
    /// The public projection of a stored user.
    pub fn from_model(m: &Model) -> (r: SignShow)
        ensures
            projects(r, *m),
    {
        SignShow {
            id: m.id,
            username: m.username.clone(),
            first_name: copy_text(&m.first_name),
            last_name: copy_text(&m.last_name),
            email: m.email.clone(),
            avatar_url: copy_text(&m.avatar_url),
        }
    }
}

impl UserMeResponse {
    /// The profile of a stored user.
    pub fn from_model(m: &Model) -> (r: UserMeResponse)
        ensures
            profiles(r, *m),
    {
        UserMeResponse {
            id: m.id,
            username: m.username.clone(),
            email: m.email.clone(),
            first_name: copy_text(&m.first_name),
            last_name: copy_text(&m.last_name),
            avatar_url: copy_text(&m.avatar_url),
        }
    }
}

} // verus!
