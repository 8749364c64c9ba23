use here_auth::auth::{
    authenticate_user, check_credentials, create_user, get_me, get_user_by_id, login, signup,
    AuthError,
};
use here_auth::identity::{CurrentUser, IdentityError, MaybeCurrentUser, user_id_from_bearer};
use here_auth::password::DEFAULT_COST;
use here_auth::store::{InsertError, UserStore};
use here_auth::token::{decode_jwt_at, generate_jwt_at};
use here_auth::user::{AccountType, Field, LoginRequest, NewUser, SignUp};

const SECRET: &str = "flow-secret";
const NOW: u64 = 1_700_000_000;
const COST: u32 = 4;

fn payload(username: &str, email: &str, password: &str) -> SignUp {
    SignUp {
        username: username.to_string(),
        email: email.to_string(),
        password: password.to_string(),
        first_name: None,
        last_name: None,
        avatar_url: None,
    }
}

fn request(identifier: &str, password: &str) -> LoginRequest {
    LoginRequest { identifier: identifier.to_string(), password: password.to_string() }
}

fn new_user(username: &str, email: &str) -> NewUser {
    NewUser {
        username: username.to_string(),
        email: email.to_string(),
        password_hash: "digest".to_string(),
        first_name: None,
        last_name: None,
        avatar_url: None,
        account_type: AccountType::Host,
    }
}

#[test]
fn store_enforces_unique_email_and_username() {
    let mut store = UserStore::new();
    assert_eq!(store.insert(new_user("a", "a@x.com"), 5), Ok(1));
    assert_eq!(store.insert(new_user("b", "a@x.com"), 5), Err(InsertError::UniqueViolation));
    assert_eq!(store.insert(new_user("a", "b@x.com"), 5), Err(InsertError::UniqueViolation));
    assert_eq!(store.insert(new_user("b", "b@x.com"), 6), Ok(2));
    assert_eq!(store.len(), 2);
    let b = store.find_by_id(2).unwrap();
    assert_eq!(b.username, "b");
    assert_eq!(b.account_type, AccountType::Host);
    assert!(b.is_active);
    assert_eq!(b.created_at, 6);
    assert!(store.find_by_id(3).is_none());
    assert_eq!(store.find_by_identifier("a@x.com").unwrap().id, 1);
    assert_eq!(store.find_by_identifier("b").unwrap().id, 2);
    assert!(store.find_by_identifier("c").is_none());
}

#[test]
fn identifier_matches_first_user_by_email_or_username() {
    let mut store = UserStore::new();
    store.insert(new_user("x@y.com", "first@y.com"), 0).unwrap();
    store.insert(new_user("second", "x@y.com"), 0).unwrap();
    assert_eq!(store.find_by_identifier("x@y.com").unwrap().id, 1);
}

#[test]
fn duplicate_email_gives_one_success_and_one_conflict() {
    let mut store = UserStore::new();
    let first = signup(&mut store, payload("alice", "same@x.com", "longenough1"), COST, 0);
    let second = signup(&mut store, payload("bob", "same@x.com", "longenough2"), COST, 0);
    assert!(first.is_ok());
    assert_eq!(second, Err(AuthError::Conflict));
    assert_eq!(store.len(), 1);
}

#[test]
fn duplicate_username_gives_one_success_and_one_conflict() {
    let mut store = UserStore::new();
    let first = signup(&mut store, payload("carol", "c1@x.com", "longenough1"), COST, 0);
    let second = signup(&mut store, payload("carol", "c2@x.com", "longenough2"), COST, 0);
    assert!(first.is_ok());
    assert_eq!(second, Err(AuthError::Conflict));
}

#[test]
fn signup_reports_each_bad_field() {
    let mut store = UserStore::new();
    let mut p = payload("", "not-an-email", "short");
    p.avatar_url = Some("not a url".to_string());
    assert_eq!(
        signup(&mut store, p, COST, 0),
        Err(AuthError::Validation(vec![Field::Username, Field::Email, Field::Password, Field::AvatarUrl]))
    );
    let mut ok = payload("dave", "dave@x.com", "longenough1");
    ok.avatar_url = Some("https://img.example.com/d.png".to_string());
    assert!(ok.validate().is_ok());
    assert_eq!(store.len(), 0);
}

#[test]
fn password_of_exactly_minimum_length_is_accepted() {
    assert!(payload("e", "e@x.com", "12345678").validate().is_ok());
    assert_eq!(payload("e", "e@x.com", "1234567").validate(), Err(vec![Field::Password]));
    assert_eq!(payload("e", "", "12345678").validate(), Err(vec![Field::Email]));
}

#[test]
fn create_user_refuses_bad_cost() {
    let mut store = UserStore::new();
    assert_eq!(create_user(&mut store, payload("f", "f@x.com", "longenough1"), 2, 0), Err(AuthError::Internal));
    assert_eq!(store.len(), 0);
}

#[test]
fn wrong_password_and_unknown_user_look_the_same() {
    let mut store = UserStore::new();
    signup(&mut store, payload("gina", "gina@x.com", "longenough1"), COST, 0).unwrap();
    let wrong = login(&store, &request("gina@x.com", "wrongpassword"), SECRET, NOW).unwrap_err();
    let unknown = login(&store, &request("nobody@x.com", "longenough1"), SECRET, NOW).unwrap_err();
    assert_eq!(wrong, AuthError::Unauthorized);
    assert_eq!(wrong, unknown);
    assert_eq!(wrong.status_code(), unknown.status_code());
    assert_eq!(wrong.message(), unknown.message());
    assert_eq!(wrong.status_code(), 401);
    assert_eq!(authenticate_user(&store, "gina", "wrongpassword"), Err(AuthError::Unauthorized));
    assert_eq!(check_credentials(None, "longenough1"), Err(AuthError::Unauthorized));
}

#[test]
fn login_validates_payload() {
    let store = UserStore::new();
    assert_eq!(
        login(&store, &request("", "short"), SECRET, NOW),
        Err(AuthError::BadRequest(vec![Field::Identifier, Field::Password]))
    );
    let refused = login(&store, &request("someone", "1234567"), SECRET, NOW).unwrap_err();
    assert_eq!(refused, AuthError::BadRequest(vec![Field::Password]));
    assert_eq!(refused.status_code(), 400);
}

#[test]
fn error_statuses() {
    assert_eq!(AuthError::Validation(vec![Field::Email]).status_code(), 422);
    assert_eq!(AuthError::Conflict.status_code(), 409);
    assert_eq!(AuthError::Internal.status_code(), 500);
    assert_eq!(AuthError::BadRequest(vec![Field::Identifier]).status_code(), 400);
    assert_eq!(AuthError::Internal.message(), "Internal server error");
    assert_eq!(AuthError::Conflict.message(), "Email or username already taken");
    assert_eq!(AuthError::Validation(vec![]).message(), "Validation error");
}

#[test]
fn signup_login_profile_end_to_end() {
    let mut store = UserStore::new();
    let shown = signup(&mut store, payload("alice", "alice@x.com", "longenough1"), DEFAULT_COST, 10).unwrap();
    assert_eq!(shown.username, "alice");
    assert_eq!(shown.email, "alice@x.com");
    assert_eq!(shown.id, 1);
    let stored = store.find_by_id(1).unwrap();
    assert_ne!(stored.password, "longenough1");
    let answer = login(&store, &request("alice@x.com", "longenough1"), SECRET, NOW).unwrap();
    assert_eq!(answer.id, 1);
    assert_eq!(answer.username, "alice");
    assert_eq!(answer.email, "alice@x.com");
    let claims = decode_jwt_at(&answer.access_token, SECRET, NOW).unwrap();
    assert_eq!(claims.sub, "1");
    assert_eq!(claims.exp, NOW + 86400);
    assert_eq!(me_first_name_none(&store, &answer.access_token), true);
    let me = get_me(&store, Some(&answer.access_token), SECRET, NOW + 60).unwrap();
    assert_eq!(me.username, "alice");
    assert_eq!(me.email, "alice@x.com");
    assert_eq!(me.id, 1);
    let token: Vec<char> = answer.access_token.chars().collect();
    for i in 0..token.len() {
        let mut bad = token.clone();
        bad[i] = if bad[i] == 'a' { 'b' } else { 'a' };
        let bad: String = bad.into_iter().collect();
        assert_eq!(get_me(&store, Some(&bad), SECRET, NOW + 60), Err(IdentityError::Unauthorized), "position {}", i);
    }
}

#[test]
fn login_by_username_and_profile_by_id() {
    let mut store = UserStore::new();
    signup(&mut store, payload("hank", "hank@x.com", "longenough1"), COST, 0).unwrap();
    assert!(login(&store, &request("hank", "longenough1"), SECRET, NOW).is_ok());
    assert_eq!(get_user_by_id(&store, 1).unwrap().username, "hank");
    assert_eq!(get_user_by_id(&store, 2), Err(AuthError::Unauthorized));
}

#[test]
fn resolution_refusals_are_uniform() {
    let mut store = UserStore::new();
    signup(&mut store, payload("ivy", "ivy@x.com", "longenough1"), COST, 0).unwrap();
    assert_eq!(CurrentUser::resolve(&store, None, SECRET, NOW), Err(IdentityError::Unauthorized));
    assert_eq!(CurrentUser::resolve(&store, Some("junk"), SECRET, NOW), Err(IdentityError::Unauthorized));
    let ghost = generate_jwt_at(99, SECRET, NOW).unwrap();
    assert_eq!(CurrentUser::resolve(&store, Some(&ghost), SECRET, NOW), Err(IdentityError::Unauthorized));
    let expired = generate_jwt_at(1, SECRET, NOW).unwrap();
    assert_eq!(
        CurrentUser::resolve(&store, Some(&expired), SECRET, NOW + 86400),
        Err(IdentityError::Unauthorized)
    );
    let forged = generate_jwt_at(1, "other", NOW).unwrap();
    assert_eq!(CurrentUser::resolve(&store, Some(&forged), SECRET, NOW), Err(IdentityError::Unauthorized));
    assert_eq!(user_id_from_bearer(Some(&expired), SECRET, NOW), Ok(1));
    let ok = CurrentUser::resolve(&store, Some(&expired), SECRET, NOW).unwrap();
    assert_eq!(ok.0.username, "ivy");
}

#[test]
fn lookup_failure_is_internal() {
    let failed: Result<Option<here_auth::user::Model>, String> = Err("db down".to_string());
    assert_eq!(CurrentUser::from_lookup(failed), Err(IdentityError::Internal));
    let missing: Result<Option<here_auth::user::Model>, String> = Ok(None);
    assert_eq!(CurrentUser::from_lookup(missing), Err(IdentityError::Unauthorized));
}

#[test]
fn optional_identity_is_repeatable() {
    let mut store = UserStore::new();
    signup(&mut store, payload("jo", "jo@x.com", "longenough1"), COST, 0).unwrap();
    let token = generate_jwt_at(1, SECRET, NOW).unwrap();
    let a = MaybeCurrentUser::resolve(&store, Some(&token), SECRET, NOW);
    let b = MaybeCurrentUser::resolve(&store, Some(&token), SECRET, NOW);
    assert_eq!(a, b);
    assert_eq!(a.0.unwrap().username, "jo");
    assert_eq!(MaybeCurrentUser::resolve(&store, Some("bad"), SECRET, NOW), MaybeCurrentUser(None));
    assert_eq!(MaybeCurrentUser::resolve(&store, None, SECRET, NOW), MaybeCurrentUser(None));
}

fn me_first_name_none(store: &UserStore, token: &str) -> bool {
    let me = get_me(store, Some(token), SECRET, NOW).unwrap();
    me.first_name.is_none() && me.last_name.is_none() && me.avatar_url.is_none()
}

#[test]
fn login_near_end_of_time_is_internal() {
    let mut store = UserStore::new();
    signup(&mut store, payload("kim", "kim@x.com", "longenough1"), COST, 0).unwrap();
    assert_eq!(
        login(&store, &request("kim", "longenough1"), SECRET, u64::MAX),
        Err(AuthError::Internal)
    );
}
