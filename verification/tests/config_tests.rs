use f69::config::{
    bool_from_env, bool_from_word, default_access_ttl, default_auth_port, default_bind_host,
    default_flag_port, default_jwt_audience, default_jwt_issuer, default_run_migrations,
    u16_from_env, u64_from_env, AuthServiceConfig, ConfigError, EnvValue, EnvValueError,
    Environment, FlagServiceConfig, JwtKeySource,
};

fn text(s: &str) -> EnvValue {
    EnvValue::Text(s.to_string())
}

fn auth_config() -> AuthServiceConfig {
    AuthServiceConfig {
        host: default_bind_host(),
        port: default_auth_port(),
        database_url: "postgres://db/auth".to_string(),
        jwt_private_key_pem: Some("PEM".to_string()),
        jwt_private_key_path: None,
        jwt_issuer: default_jwt_issuer(),
        jwt_audience: default_jwt_audience(),
        jwt_access_ttl_secs: default_access_ttl(),
        environment: Environment::default(),
        cors_allowed_origins: None,
        run_migrations_on_startup: default_run_migrations(),
    }
}

fn flag_config() -> FlagServiceConfig {
    FlagServiceConfig {
        host: "127.0.0.1".to_string(),
        port: default_flag_port(),
        database_url: "postgres://db/flags".to_string(),
        auth_base_url: "http://auth:3000".to_string(),
        jwt_issuer: default_jwt_issuer(),
        jwt_audience: default_jwt_audience(),
        environment: Environment::Production,
        cors_allowed_origins: None,
        run_migrations_on_startup: false,
    }
}

#[test]
fn bool_words_are_read_case_insensitively() {
    assert_eq!(bool_from_env(&text(" TRUE ")), Ok(true));
    assert_eq!(bool_from_env(&text("Yes")), Ok(true));
    assert_eq!(bool_from_env(&text("1")), Ok(true));
    assert_eq!(bool_from_env(&text("no")), Ok(false));
    assert_eq!(bool_from_env(&text("\tFalse\n")), Ok(false));
    assert_eq!(bool_from_env(&text("0")), Ok(false));
    assert_eq!(bool_from_env(&EnvValue::Bool(true)), Ok(true));
    assert_eq!(bool_from_env(&text("maybe")), Err(EnvValueError::InvalidBool));
    assert_eq!(bool_from_env(&text("")), Err(EnvValueError::InvalidBool));
    assert_eq!(bool_from_env(&text("t rue")), Err(EnvValueError::InvalidBool));
    assert_eq!(bool_from_env(&EnvValue::Unsigned(1)), Err(EnvValueError::UnexpectedType));
}

#[test]
fn bool_words_are_exact() {
    assert_eq!(bool_from_word("true"), Some(true));
    assert_eq!(bool_from_word("TRUE"), None);
    assert_eq!(bool_from_word("yes "), None);
    assert_eq!(bool_from_word("no"), Some(false));
}

#[test]
fn u64_values() {
    assert_eq!(u64_from_env(&EnvValue::Unsigned(3600)), Ok(3600));
    assert_eq!(u64_from_env(&EnvValue::Signed(-1)), Err(EnvValueError::InvalidU64));
    assert_eq!(u64_from_env(&EnvValue::Signed(i64::MIN)), Err(EnvValueError::InvalidU64));
    assert_eq!(u64_from_env(&EnvValue::Signed(0)), Ok(0));
    assert_eq!(u64_from_env(&EnvValue::Signed(42)), Ok(42));
    assert_eq!(u64_from_env(&text(" 18446744073709551615 ")), Ok(u64::MAX));
    assert_eq!(u64_from_env(&text("18446744073709551616")), Err(EnvValueError::InvalidU64));
    assert_eq!(u64_from_env(&text("+7")), Ok(7));
    assert_eq!(u64_from_env(&text("-7")), Err(EnvValueError::InvalidU64));
    assert_eq!(u64_from_env(&text("+")), Err(EnvValueError::InvalidU64));
    assert_eq!(u64_from_env(&text("1_000")), Err(EnvValueError::InvalidU64));
    assert_eq!(u64_from_env(&text("١٢")), Err(EnvValueError::InvalidU64));
    assert_eq!(u64_from_env(&EnvValue::Bool(true)), Err(EnvValueError::UnexpectedType));
}

#[test]
fn u64_text_agrees_with_std_parse() {
    for s in ["0", "00012", "+0", "99999999999999999999", "12a", " 5", "", "+-1", "007 "] {
        let expected = s.trim().parse::<u64>().ok();
        assert_eq!(u64_from_env(&text(s)).ok(), expected, "input {:?}", s);
    }
}

#[test]
fn ports_are_range_checked() {
    assert_eq!(u16_from_env(&EnvValue::Unsigned(65535)), Ok(65535));
    assert_eq!(u16_from_env(&EnvValue::Unsigned(65536)), Err(EnvValueError::PortOutOfRange));
    assert_eq!(u16_from_env(&EnvValue::Unsigned(70000)), Err(EnvValueError::PortOutOfRange));
    assert_eq!(u16_from_env(&text(" 8080\n")), Ok(8080));
    assert_eq!(u16_from_env(&text("65536")), Err(EnvValueError::InvalidU16));
    assert_eq!(u16_from_env(&EnvValue::Signed(80)), Err(EnvValueError::UnexpectedType));
    assert_eq!(u16_from_env(&EnvValue::Bool(false)), Err(EnvValueError::UnexpectedType));
}

#[test]
fn env_error_messages() {
    assert_eq!(EnvValueError::InvalidBool.message(), "invalid boolean env value");
    assert_eq!(EnvValueError::InvalidU64.message(), "invalid u64 env value");
    assert_eq!(EnvValueError::PortOutOfRange.message(), "port out of range");
    assert_eq!(EnvValueError::InvalidU16.message(), "invalid u16 env value");
}

#[test]
fn defaults() {
    assert_eq!(default_bind_host(), "0.0.0.0");
    assert_eq!(default_auth_port(), 3000);
    assert_eq!(default_flag_port(), 3001);
    assert_eq!(default_jwt_issuer(), "f69-auth");
    assert_eq!(default_jwt_audience(), "f69-api");
    assert_eq!(default_access_ttl(), 3600);
    assert!(default_run_migrations());
    assert_eq!(Environment::default(), Environment::Development);
}

#[test]
fn production_flag() {
    assert!(Environment::Production.is_production());
    assert!(!Environment::Development.is_production());
}

#[test]
fn auth_config_needs_a_key_and_a_database() {
    let ok = AuthServiceConfig::from_env(Ok(auth_config())).unwrap();
    assert_eq!(ok.database_url, "postgres://db/auth");

    let mut no_key = auth_config();
    no_key.jwt_private_key_pem = None;
    match AuthServiceConfig::from_env(Ok(no_key)) {
        Err(ConfigError::Auth(m)) => {
            assert_eq!(m, "set AUTH_JWT_PRIVATE_KEY_PEM or AUTH_JWT_PRIVATE_KEY_PATH")
        }
        _ => panic!("expected a missing key error"),
    }

    let mut path_only = auth_config();
    path_only.jwt_private_key_pem = None;
    path_only.jwt_private_key_path = Some("/keys/jwt.pem".to_string());
    assert!(AuthServiceConfig::from_env(Ok(path_only)).is_ok());

    let mut no_db = auth_config();
    no_db.database_url = String::new();
    match AuthServiceConfig::from_env(Ok(no_db)) {
        Err(ConfigError::Auth(m)) => assert_eq!(m, "AUTH_DATABASE_URL is required"),
        _ => panic!("expected a missing database error"),
    }

    // Both missing: the key is reported first.
    let mut neither = auth_config();
    neither.jwt_private_key_pem = None;
    neither.database_url = String::new();
    match AuthServiceConfig::from_env(Ok(neither)) {
        Err(ConfigError::Auth(m)) => assert!(m.starts_with("set AUTH_JWT_PRIVATE_KEY_PEM")),
        _ => panic!("expected a missing key error"),
    }
}

#[test]
fn flag_config_needs_a_database_and_the_auth_url() {
    assert!(FlagServiceConfig::from_env(Ok(flag_config())).is_ok());
    let mut no_db = flag_config();
    no_db.database_url = String::new();
    match FlagServiceConfig::from_env(Ok(no_db)) {
        Err(ConfigError::Flag(m)) => assert_eq!(m, "FLAG_DATABASE_URL is required"),
        _ => panic!("expected a missing database error"),
    }
    let mut no_auth = flag_config();
    no_auth.auth_base_url = String::new();
    match FlagServiceConfig::from_env(Ok(no_auth)) {
        Err(ConfigError::Flag(m)) => assert_eq!(m, "FLAG_AUTH_BASE_URL is required"),
        _ => panic!("expected a missing auth url error"),
    }
}

#[test]
fn extraction_errors_are_passed_on() {
    let err = figment::Figment::new().extract_inner::<String>("missing").unwrap_err();
    assert!(matches!(
        AuthServiceConfig::from_env(Err(ConfigError::Figment(err))),
        Err(ConfigError::Figment(_))
    ));
}

#[test]
fn listen_address_text() {
    assert_eq!(auth_config().socket_addr_text(), "0.0.0.0:3000");
    assert_eq!(flag_config().socket_addr_text(), "127.0.0.1:3001");
    let mut c = auth_config();
    c.port = 0;
    assert_eq!(c.socket_addr_text(), "0.0.0.0:0");
    c.port = 65535;
    c.host = "::1".to_string();
    assert_eq!(c.socket_addr_text(), "::1:65535");
}

#[test]
fn key_source_prefers_inline_pem() {
    let mut c = auth_config();
    c.jwt_private_key_path = Some("/k.pem".to_string());
    match c.jwt_key_source() {
        Some(JwtKeySource::Inline(p)) => assert_eq!(p, "PEM"),
        _ => panic!("expected the inline key"),
    }
    c.jwt_private_key_pem = None;
    match c.jwt_key_source() {
        Some(JwtKeySource::File(p)) => assert_eq!(p, "/k.pem"),
        _ => panic!("expected the key file"),
    }
    c.jwt_private_key_path = None;
    assert!(c.jwt_key_source().is_none());
}

#[test]
fn accepted_auth_config_has_a_key_source() {
    for (pem, path) in [(Some("P"), None), (None, Some("/k")), (Some("P"), Some("/k"))] {
        let mut c = auth_config();
        c.jwt_private_key_pem = pem.map(|s: &str| s.to_string());
        c.jwt_private_key_path = path.map(|s: &str| s.to_string());
        let accepted = AuthServiceConfig::from_env(Ok(c)).unwrap();
        assert!(accepted.jwt_key_source().is_some());
    }
}
