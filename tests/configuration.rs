use here_auth::config::{AppConfig, ConfigError};

fn full() -> Vec<(String, String)> {
    [
        ("SECRET_KEY", "s3cret"),
        ("REDIS_URL", "redis://localhost"),
        ("SMTP_HOST", "smtp.example.com"),
        ("SMTP_USERNAME", "mailer"),
        ("SMTP_PASSWORD", "mailpw"),
        ("SMTP_FROM_EMAIL", "noreply@example.com"),
        ("DATABASE_URL", "postgres://db"),
    ]
    .iter()
    .map(|(k, v)| (k.to_string(), v.to_string()))
    .collect()
}

fn with(mut e: Vec<(String, String)>, k: &str, v: &str) -> Vec<(String, String)> {
    e.push((k.to_string(), v.to_string()));
    e
}

#[test]
fn builds_from_secrets_with_defaults() {
    let c = AppConfig::from_secrets(&full()).unwrap();
    assert_eq!(c.secret_key, "s3cret");
    assert_eq!(c.hash_rounds, 12);
    assert_eq!(c.smtp_port, 587);
    assert!(!c.debug);
    assert_eq!(c.database_url, "postgres://db");
    assert_eq!(c.smtp_from_email, "noreply@example.com");
}

#[test]
fn reads_numbers_and_flags() {
    let e = with(with(with(full(), "HASH_ROUNDS", "10"), "SMTP_PORT", "2525"), "DEBUG", "true");
    let c = AppConfig::from_secrets(&e).unwrap();
    assert_eq!(c.hash_rounds, 10);
    assert_eq!(c.smtp_port, 2525);
    assert!(c.debug);
}

#[test]
fn unparsable_values_fall_back() {
    let e = with(with(with(full(), "HASH_ROUNDS", "ten"), "SMTP_PORT", "70000"), "DEBUG", "yes");
    let c = AppConfig::from_secrets(&e).unwrap();
    assert_eq!(c.hash_rounds, 12);
    assert_eq!(c.smtp_port, 587);
    assert!(!c.debug);
}

#[test]
fn missing_secret_is_named() {
    let e: Vec<(String, String)> = full().into_iter().filter(|(k, _)| k != "REDIS_URL").collect();
    assert_eq!(
        AppConfig::from_secrets(&e),
        Err(ConfigError::MissingSecret { key: "REDIS_URL".to_string() })
    );
    let e: Vec<(String, String)> = full().into_iter().filter(|(k, _)| k != "SECRET_KEY" && k != "DATABASE_URL").collect();
    assert_eq!(
        AppConfig::from_secrets(&e),
        Err(ConfigError::MissingSecret { key: "SECRET_KEY".to_string() })
    );
}

#[test]
fn empty_signing_secret_is_refused() {
    let mut e = full();
    e[0].1 = String::new();
    assert_eq!(
        AppConfig::from_secrets(&e),
        Err(ConfigError::EmptySecret { key: "SECRET_KEY".to_string() })
    );
}

#[test]
fn first_entry_of_a_key_wins() {
    let mut e = vec![("HASH_ROUNDS".to_string(), "5".to_string())];
    e.extend(with(full(), "HASH_ROUNDS", "9"));
    assert_eq!(AppConfig::from_secrets(&e).unwrap().hash_rounds, 5);
}

#[test]
fn falls_back_to_environment_without_secrets() {
    let env = || Err(ConfigError::Source { message: "no env".to_string() });
    assert_eq!(
        AppConfig::from_secrets_or_env(None, env),
        Err(ConfigError::Source { message: "no env".to_string() })
    );
    assert_eq!(
        AppConfig::from_secrets_or_env(Some(Vec::new()), env),
        Err(ConfigError::Source { message: "no env".to_string() })
    );
    let c = AppConfig::from_secrets_or_env(Some(full()), env).unwrap();
    assert_eq!(c.secret_key, "s3cret");
}

#[test]
fn environment_config_with_empty_secret_is_refused() {
    let loaded = AppConfig::from_secrets(&full()).unwrap();
    let mut empty = loaded.clone();
    empty.secret_key = String::new();
    assert_eq!(
        AppConfig::from_secrets_or_env(None, move || Ok(empty)),
        Err(ConfigError::EmptySecret { key: "SECRET_KEY".to_string() })
    );
    let kept = loaded.clone();
    assert_eq!(AppConfig::from_secrets_or_env(None, move || Ok(kept)), Ok(loaded));
}
