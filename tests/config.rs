use zero2prod::config::{DatabaseConfig, EmailClientConfig, Env, SslMode};

#[test]
fn env_names_round_trip() {
    for env in [Env::Local, Env::Prod] {
        assert_eq!(Env::try_from(env.as_str().to_string()).unwrap(), env);
    }
    assert_eq!(Env::Local.as_str(), "local");
    assert_eq!(Env::Prod.as_str(), "prod");
}

#[test]
fn unknown_env_is_refused() {
    let err = Env::try_from("staging".to_string()).unwrap_err();
    assert_eq!(err, "staging is not a valid environment");
    assert!(Env::try_from("Local".to_string()).is_err());
    assert!(Env::try_from("".to_string()).is_err());
}

#[test]
fn env_file_name() {
    assert_eq!(Env::Prod.file_name(), "prod.yaml");
}

fn db_config(require_ssl: bool) -> DatabaseConfig {
    DatabaseConfig {
        name: "newsletter".to_string(),
        username: "postgres".to_string(),
        password: "password".to_string(),
        port: 5432,
        host: "127.0.0.1".to_string(),
        require_ssl,
    }
}

#[test]
fn connection_without_db_names_no_database() {
    let options = db_config(false).connection_string_without_db();
    assert_eq!(options.host, "127.0.0.1");
    assert_eq!(options.port, 5432);
    assert_eq!(options.username, "postgres");
    assert_eq!(options.password, "password");
    assert_eq!(options.ssl_mode, SslMode::Prefer);
    assert!(options.database.is_none());
    assert!(!options.trace_statements);
}

#[test]
fn connection_names_the_database_and_requires_ssl() {
    let options = db_config(true).connection_string();
    assert_eq!(options.ssl_mode, SslMode::Require);
    assert_eq!(options.database.as_deref(), Some("newsletter"));
    assert!(options.trace_statements);
}

#[test]
fn sender_email_is_checked() {
    let config = EmailClientConfig {
        base_url: "http://localhost".to_string(),
        sender_email: "test@gmail.com".to_string(),
        timeout_ms: 10000,
    };
    assert_eq!(config.parse_sender_email().unwrap().as_ref(), "test@gmail.com");
    let config = EmailClientConfig { sender_email: "nobody".to_string(), ..config };
    assert!(config.parse_sender_email().is_err());
}
