use pool_startup::config::Config;
use pool_startup::config::ConnectionString;
use pool_startup::config::resolve_connection_string;
use pool_startup::errors::ConfigError;

#[test]
fn missing_key_is_config_error() {
    let cfg = Config { database_url: None };
    let r = resolve_connection_string(&cfg);
    assert!(matches!(r, Err(ConfigError::Missing)));
}

#[test]
fn unset_value_is_config_error() {
    let cfg = Config {
        database_url: Some(String::new()),
    };
    let r = resolve_connection_string(&cfg);
    assert!(matches!(r, Err(ConfigError::Missing)));
}

#[test]
fn present_value_resolves_unchanged() {
    let cfg = Config {
        database_url: Some("sqlite://:memory:".to_string()),
    };
    let c = resolve_connection_string(&cfg).unwrap();
    assert_eq!(c.as_str(), "sqlite://:memory:");
}

#[test]
fn resolution_is_idempotent() {
    let cfg = Config {
        database_url: Some("sqlite://app.db".to_string()),
    };
    let a = resolve_connection_string(&cfg).unwrap();
    let b = resolve_connection_string(&cfg).unwrap();
    assert_eq!(a.as_str(), b.as_str());
}

#[test]
fn missing_message_names_the_variable() {
    let msg = ConfigError::Missing.message();
    assert!(msg.contains("Environment variable not set"));
    assert_eq!(msg, "Environment variable not set: DATABASE_URL");
}

#[test]
fn connection_string_refuses_empty() {
    assert!(ConnectionString::new(String::new()).is_none());
    let c = ConnectionString::new("sqlite://app.db".to_string()).unwrap();
    assert_eq!(c.as_str(), "sqlite://app.db");
}
