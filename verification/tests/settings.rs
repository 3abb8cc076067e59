use auth_backend::config::{
    Config, ConfigError, DATABASE_URL, DEFAULT_PORT, JWT_MAXAGE, JWT_SECRET_KEY,
};

#[test]
fn complete_settings_give_a_configuration() {
    let database_url = Some("postgres://user:pw@localhost/db".to_string());
    let jwt_secret = Some("secret".to_string());
    let jwt_maxage = Some("3600".to_string());
    assert_eq!(Config::fault(&database_url, &jwt_secret, &jwt_maxage), None);
    let config = Config::init(database_url, jwt_secret, jwt_maxage);
    assert_eq!(config.database_url, "postgres://user:pw@localhost/db");
    assert_eq!(config.jwt_secret, "secret");
    assert_eq!(config.jwt_maxage, 3600);
    assert_eq!(config.port, 3100);
}

#[test]
fn lifetime_that_is_no_number_gives_no_configuration() {
    let fault =
        Config::fault(&Some("db".to_string()), &Some("secret".to_string()), &Some("abc".to_string()));
    assert_eq!(fault, Some(ConfigError::JwtMaxageInvalid));
}

#[test]
fn empty_lifetime_gives_no_configuration() {
    let fault =
        Config::fault(&Some("db".to_string()), &Some("secret".to_string()), &Some(String::new()));
    assert_eq!(fault, Some(ConfigError::JwtMaxageInvalid));
}

#[test]
fn lifetime_out_of_range_gives_no_configuration() {
    let fault = Config::fault(
        &Some("db".to_string()),
        &Some("secret".to_string()),
        &Some("9223372036854775808".to_string()),
    );
    assert_eq!(fault, Some(ConfigError::JwtMaxageInvalid));
    let fault = Config::fault(
        &Some("db".to_string()),
        &Some("secret".to_string()),
        &Some("-9223372036854775809".to_string()),
    );
    assert_eq!(fault, Some(ConfigError::JwtMaxageInvalid));
}

#[test]
fn lifetime_at_the_limits_gives_a_configuration() {
    let jwt_maxage = Some("9223372036854775807".to_string());
    assert_eq!(Config::fault(&Some("db".to_string()), &Some("k".to_string()), &jwt_maxage), None);
    let config = Config::init(Some("db".to_string()), Some("k".to_string()), jwt_maxage);
    assert_eq!(config.jwt_maxage, i64::MAX);

    let jwt_maxage = Some("-9223372036854775808".to_string());
    assert_eq!(Config::fault(&Some("db".to_string()), &Some("k".to_string()), &jwt_maxage), None);
    let config = Config::init(Some("db".to_string()), Some("k".to_string()), jwt_maxage);
    assert_eq!(config.jwt_maxage, i64::MIN);
}

#[test]
fn missing_database_url_gives_no_configuration() {
    let fault = Config::fault(&None, &Some("secret".to_string()), &Some("3600".to_string()));
    assert_eq!(fault, Some(ConfigError::DatabaseUrlMissing));
}

#[test]
fn missing_secret_gives_no_configuration() {
    let fault = Config::fault(&Some("db".to_string()), &None, &Some("3600".to_string()));
    assert_eq!(fault, Some(ConfigError::JwtSecretMissing));
}

#[test]
fn missing_lifetime_gives_no_configuration() {
    let fault = Config::fault(&Some("db".to_string()), &Some("secret".to_string()), &None);
    assert_eq!(fault, Some(ConfigError::JwtMaxageMissing));
}

#[test]
fn first_missing_setting_is_reported() {
    assert_eq!(Config::fault(&None, &None, &None), Some(ConfigError::DatabaseUrlMissing));
    assert_eq!(
        Config::fault(&Some("db".to_string()), &None, &None),
        Some(ConfigError::JwtSecretMissing)
    );
    assert_eq!(
        Config::fault(&None, &Some("secret".to_string()), &Some("abc".to_string())),
        Some(ConfigError::DatabaseUrlMissing)
    );
    assert_eq!(
        Config::fault(&Some("db".to_string()), &None, &Some("abc".to_string())),
        Some(ConfigError::JwtSecretMissing)
    );
}

#[test]
fn fault_leaves_the_settings_as_they_are() {
    let database_url = Some("db".to_string());
    let jwt_secret = Some("secret".to_string());
    let jwt_maxage = Some("abc".to_string());
    assert_eq!(
        Config::fault(&database_url, &jwt_secret, &jwt_maxage),
        Some(ConfigError::JwtMaxageInvalid)
    );
    assert_eq!(database_url.as_deref(), Some("db"));
    assert_eq!(jwt_secret.as_deref(), Some("secret"));
    assert_eq!(jwt_maxage.as_deref(), Some("abc"));
}

#[test]
fn negative_lifetime_is_read_as_it_stands() {
    let jwt_maxage = Some("-60".to_string());
    assert_eq!(
        Config::fault(&Some("db".to_string()), &Some("secret".to_string()), &jwt_maxage),
        None
    );
    let config = Config::init(Some("db".to_string()), Some("secret".to_string()), jwt_maxage);
    assert_eq!(config.jwt_maxage, -60);
    assert_eq!(config.port, 3100);
}

#[test]
fn settings_are_kept_verbatim() {
    let database_url = Some(String::new());
    let jwt_secret = Some(" s p a c e ".to_string());
    let jwt_maxage = Some("0".to_string());
    assert_eq!(Config::fault(&database_url, &jwt_secret, &jwt_maxage), None);
    let config = Config::init(database_url, jwt_secret, jwt_maxage);
    assert_eq!(config.database_url, "");
    assert_eq!(config.jwt_secret, " s p a c e ");
    assert_eq!(config.jwt_maxage, 0);
}

#[test]
fn configuration_can_be_cloned() {
    let config =
        Config::init(Some("db".to_string()), Some("secret".to_string()), Some("3600".to_string()));
    let copy = config.clone();
    assert_eq!(copy.database_url, config.database_url);
    assert_eq!(copy.jwt_secret, config.jwt_secret);
    assert_eq!(copy.jwt_maxage, config.jwt_maxage);
    assert_eq!(copy.port, config.port);
}

#[test]
fn setting_names_and_port() {
    assert_eq!(DATABASE_URL, "DATABASE_URL");
    assert_eq!(JWT_SECRET_KEY, "JWT_SECRET_KEY");
    assert_eq!(JWT_MAXAGE, "JWT_MAXAGE");
    assert_eq!(DEFAULT_PORT, 3100);
}

#[test]
fn config_error_texts() {
    assert_eq!(ConfigError::DatabaseUrlMissing.to_str(), "DATABASE_URL must be set");
    assert_eq!(ConfigError::JwtSecretMissing.to_str(), "JWT_SECRET_KEY must be set");
    assert_eq!(ConfigError::JwtMaxageMissing.to_str(), "JWT_MAXAGE must be set");
    assert_eq!(
        ConfigError::JwtMaxageInvalid.to_str(),
        "JWT_MAXAGE must be a signed 64-bit integer"
    );
}
