//! Process configuration, read once at startup from a set of named secrets,
//! or else from the environment.
use vstd::prelude::*;
use crate::decimal::{parse_bool, parse_u16, parse_u32, parsed_bool, parsed_u16, parsed_u32, same_text};

verus! {

/// The configuration of the process.
#[derive(Clone, Debug, PartialEq, Eq)]
pub struct AppConfig {
    /// The token signing secret; never empty.
    pub secret_key: String,
    /// The bcrypt cost factor.
    pub hash_rounds: u32,
    pub redis_url: String,
    pub smtp_host: String,
    pub smtp_port: u16,
    pub smtp_username: String,
    pub smtp_password: String,
    pub smtp_from_email: String,
    pub database_url: String,
    pub debug: bool,
}

/// Why no configuration could be built.
#[derive(Clone, Debug, PartialEq, Eq)]
pub enum ConfigError {
    /// A required secret is absent.
    MissingSecret { key: String },
    /// A secret that must not be empty is empty.
    EmptySecret { key: String },
    /// Another source of configuration failed.
    Source { message: String },
}

/// The value of the first entry named `key`.
pub open spec fn lookup(entries: Seq<(String, String)>, key: Seq<char>) -> Option<Seq<char>>
    decreases entries.len(),
{
    if entries.len() == 0 {
        None
    } else if entries[0].0@ == key {
        Some(entries[0].1@)
    } else {
        lookup(entries.drop_first(), key)
    }
}

/// The first required secret that is absent, in the order the fields are
/// read.
pub open spec fn first_missing(e: Seq<(String, String)>) -> Option<Seq<char>> {
    if lookup(e, "SECRET_KEY"@) is None {
        Some("SECRET_KEY"@)
    } else if lookup(e, "REDIS_URL"@) is None {
        Some("REDIS_URL"@)
    } else if lookup(e, "SMTP_HOST"@) is None {
        Some("SMTP_HOST"@)
    } else if lookup(e, "SMTP_USERNAME"@) is None {
        Some("SMTP_USERNAME"@)
    } else if lookup(e, "SMTP_PASSWORD"@) is None {
        Some("SMTP_PASSWORD"@)
    } else if lookup(e, "SMTP_FROM_EMAIL"@) is None {
        Some("SMTP_FROM_EMAIL"@)
    } else if lookup(e, "DATABASE_URL"@) is None {
        Some("DATABASE_URL"@)
    } else {
        None
    }
}

/// The value of a secret, or the empty text when it is absent.
pub open spec fn value_of(e: Seq<(String, String)>, key: Seq<char>) -> Seq<char> {
    match lookup(e, key) {
        Some(v) => v,
        None => Seq::empty(),
    }
}

pub open spec fn u32_setting(e: Seq<(String, String)>, key: Seq<char>, default: u32) -> u32 {
    match lookup(e, key) {
        Some(v) => match parsed_u32(v) {
            Some(n) => n,
            None => default,
        },
        None => default,
    }
}

pub open spec fn u16_setting(e: Seq<(String, String)>, key: Seq<char>, default: u16) -> u16 {
    match lookup(e, key) {
        Some(v) => match parsed_u16(v) {
            Some(n) => n,
            None => default,
        },
        None => default,
    }
}

pub open spec fn bool_setting(e: Seq<(String, String)>, key: Seq<char>, default: bool) -> bool {
    match lookup(e, key) {
        Some(v) => match parsed_bool(v) {
            Some(b) => b,
            None => default,
        },
        None => default,
    }
}

/// `c` holds what the secrets say: each text field its secret, the cost
/// factor `HASH_ROUNDS` or 12, the port `SMTP_PORT` or 587, and `DEBUG` or
/// false, a value that does not parse counting as absent.
pub open spec fn built_from(c: AppConfig, e: Seq<(String, String)>) -> bool {
    &&& c.secret_key@ == value_of(e, "SECRET_KEY"@)
    &&& c.hash_rounds == u32_setting(e, "HASH_ROUNDS"@, 12)
    &&& c.redis_url@ == value_of(e, "REDIS_URL"@)
    &&& c.smtp_host@ == value_of(e, "SMTP_HOST"@)
    &&& c.smtp_port == u16_setting(e, "SMTP_PORT"@, 587)
    &&& c.smtp_username@ == value_of(e, "SMTP_USERNAME"@)
    &&& c.smtp_password@ == value_of(e, "SMTP_PASSWORD"@)
    &&& c.smtp_from_email@ == value_of(e, "SMTP_FROM_EMAIL"@)
    &&& c.database_url@ == value_of(e, "DATABASE_URL"@)
    &&& c.debug == bool_setting(e, "DEBUG"@, false)
}

/// What building a configuration from the secrets `e` gives.
pub open spec fn secrets_outcome(e: Seq<(String, String)>, r: Result<AppConfig, ConfigError>) -> bool {
    match first_missing(e) {
        Some(k) => r matches Err(ConfigError::MissingSecret { key }) && key@ == k,
        None => if value_of(e, "SECRET_KEY"@).len() == 0 {
            r matches Err(ConfigError::EmptySecret { key }) && key@ == "SECRET_KEY"@
        } else {
            r matches Ok(c) && built_from(c, e)
        },
    }
}

/// What a configuration loaded elsewhere becomes: the same, unless its
/// signing secret is empty.
pub open spec fn checked_outcome(loaded: Result<AppConfig, ConfigError>, r: Result<AppConfig, ConfigError>) -> bool {
    match loaded {
        Ok(c) => if c.secret_key@.len() == 0 {
            r matches Err(ConfigError::EmptySecret { key }) && key@ == "SECRET_KEY"@
        } else {
            r == Ok::<AppConfig, ConfigError>(c)
        },
        Err(x) => r == Err::<AppConfig, ConfigError>(x),
    }
}

/// The value of the first entry named `key`.
pub fn find_secret(entries: &Vec<(String, String)>, key: &str) -> (r: Option<String>)
    ensures
        match r {
            Some(v) => lookup(entries@, key@) == Some(v@),
            None => lookup(entries@, key@) is None,
        },
{
    let mut i: usize = 0;
    assert(entries@.subrange(0, entries@.len() as int) =~= entries@);
    while i < entries.len()
        invariant
            0 <= i <= entries@.len(),
            lookup(entries@, key@) == lookup(entries@.subrange(i as int, entries@.len() as int), key@),
        decreases entries.len() - i,
    {
        let ghost rest = entries@.subrange(i as int, entries@.len() as int);
        assert(rest.drop_first() =~= entries@.subrange(i + 1, entries@.len() as int));
        if same_text(entries[i].0.as_str(), key) {
            return Some(entries[i].1.clone());
        }
        i = i + 1;
    }
    None
}

fn required(entries: &Vec<(String, String)>, key: &str) -> (r: Result<String, ConfigError>)
    ensures
        match r {
            Ok(v) => lookup(entries@, key@) == Some(v@),
            Err(e) => lookup(entries@, key@) is None && (e matches ConfigError::MissingSecret { key: k } && k@ == key@),
        },
{
    match find_secret(entries, key) {
        Some(v) => Ok(v),
        None => Err(ConfigError::MissingSecret { key: key.to_owned() }),
    }
}

fn u32_or(entries: &Vec<(String, String)>, key: &str, default: u32) -> (r: u32)
    ensures
        r == u32_setting(entries@, key@, default),
{
    match find_secret(entries, key) {
        Some(v) => match parse_u32(v.as_str()) {
            Some(n) => n,
            None => default,
        },
        None => default,
    }
}

fn u16_or(entries: &Vec<(String, String)>, key: &str, default: u16) -> (r: u16)
    ensures
        r == u16_setting(entries@, key@, default),
{
    match find_secret(entries, key) {
        Some(v) => match parse_u16(v.as_str()) {
            Some(n) => n,
            None => default,
        },
        None => default,
    }
}

fn bool_or(entries: &Vec<(String, String)>, key: &str, default: bool) -> (r: bool)
    ensures
        r == bool_setting(entries@, key@, default),
{
    match find_secret(entries, key) {
        Some(v) => match parse_bool(v.as_str()) {
            Some(b) => b,
            None => default,
        },
        None => default,
    }
}

impl AppConfig {
    /// Builds the configuration from named secrets. Every text field is
    /// required, and the signing secret must not be empty.
    pub fn from_secrets(secrets: &Vec<(String, String)>) -> (r: Result<AppConfig, ConfigError>)
        ensures
            secrets_outcome(secrets@, r),
    {
        let secret_key = match required(secrets, "SECRET_KEY") {
            Ok(v) => v,
            Err(e) => return Err(e),
        };
        let hash_rounds = u32_or(secrets, "HASH_ROUNDS", 12);
        let redis_url = match required(secrets, "REDIS_URL") {
            Ok(v) => v,
            Err(e) => return Err(e),
        };
        let smtp_host = match required(secrets, "SMTP_HOST") {
            Ok(v) => v,
            Err(e) => return Err(e),
        };
        let smtp_port = u16_or(secrets, "SMTP_PORT", 587);
        let smtp_username = match required(secrets, "SMTP_USERNAME") {
            Ok(v) => v,
            Err(e) => return Err(e),
        };
        let smtp_password = match required(secrets, "SMTP_PASSWORD") {
            Ok(v) => v,
            Err(e) => return Err(e),
        };
        let smtp_from_email = match required(secrets, "SMTP_FROM_EMAIL") {
            Ok(v) => v,
            Err(e) => return Err(e),
        };
        let database_url = match required(secrets, "DATABASE_URL") {
            Ok(v) => v,
            Err(e) => return Err(e),
        };
        let debug = bool_or(secrets, "DEBUG", false);
        if secret_key.as_str().is_empty() {
            return Err(ConfigError::EmptySecret { key: "SECRET_KEY".to_owned() });
        }
        Ok(AppConfig {
            secret_key,
            hash_rounds,
            redis_url,
            smtp_host,
            smtp_port,
            smtp_username,
            smtp_password,
            smtp_from_email,
            database_url,
            debug,
        })
    }

    /// Builds the configuration from the secrets when there are any, and
    /// otherwise from the environment, which `from_env` reads. Either way
    /// an empty signing secret is refused.
    pub fn from_secrets_or_env<F>(secrets: Option<Vec<(String, String)>>, from_env: F) -> (r: Result<AppConfig, ConfigError>)
        where
            F: FnOnce() -> Result<AppConfig, ConfigError>,
        requires
            from_env.requires(()),
        ensures
            match secrets {
                Some(s) => if s@.len() > 0 {
                    secrets_outcome(s@, r)
                } else {
                    exists|e: Result<AppConfig, ConfigError>| from_env.ensures((), e) && #[trigger] checked_outcome(e, r)
                },
                None => exists|e: Result<AppConfig, ConfigError>| from_env.ensures((), e) && #[trigger] checked_outcome(e, r),
            },
    {
        match secrets {
            Some(s) => {
                if s.len() > 0 {
                    return AppConfig::from_secrets(&s);
                }
            },
            None => {},
        }
        let e = from_env();
        let ghost loaded = e;
        let r = AppConfig::non_empty_secret(e);
        assert(checked_outcome(loaded, r));
        r
    }

    /// Refuses a loaded configuration whose signing secret is empty.
    pub fn non_empty_secret(loaded: Result<AppConfig, ConfigError>) -> (r: Result<AppConfig, ConfigError>)
        ensures
            checked_outcome(loaded, r),
    {
        match loaded {
            Ok(c) => {
                if c.secret_key.as_str().is_empty() {
                    Err(ConfigError::EmptySecret { key: "SECRET_KEY".to_owned() })
                } else {
                    Ok(c)
                }
            },
            Err(x) => Err(x),
        }
    }
}

} // verus!
