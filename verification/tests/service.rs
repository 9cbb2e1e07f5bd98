use telemetry_ingestor::auth::auth_middleware;
use telemetry_ingestor::config::{Config, ConfigError, DEFAULT_PORT};
use telemetry_ingestor::health::{healthz, Health};
use telemetry_ingestor::rejection::{internal_err, Rejection};

fn some(text: &str) -> Option<String> {
    Some(text.to_string())
}

#[test]
fn bearer_token_is_let_through() {
    assert_eq!(auth_middleware("Bearer s3cret", "s3cret"), Ok(()));
    assert_eq!(auth_middleware("Bearer a b", "a b"), Ok(()));
    assert_eq!(auth_middleware("Bearer Bearer x", "Bearer x"), Ok(()));
}

#[test]
fn other_headers_are_unauthorized() {
    let denied = Err(Rejection::Unauthorized);
    assert_eq!(auth_middleware("", "s3cret"), denied);
    assert_eq!(auth_middleware("Bearer ", "s3cret"), denied);
    assert_eq!(auth_middleware("Bearer", "s3cret"), denied);
    assert_eq!(auth_middleware("Bearer wrong", "s3cret"), denied);
    assert_eq!(auth_middleware("Bearer s3cre", "s3cret"), denied);
    assert_eq!(auth_middleware("Bearer s3cret ", "s3cret"), denied);
    assert_eq!(auth_middleware("Bearer  s3cret", "s3cret"), denied);
    assert_eq!(auth_middleware("bearer s3cret", "s3cret"), denied);
    assert_eq!(auth_middleware("Basic s3cret", "s3cret"), denied);
    assert_eq!(auth_middleware("s3cret", "s3cret"), denied);
}

#[test]
fn empty_token_lets_nothing_through() {
    assert_eq!(auth_middleware("Bearer ", ""), Err(Rejection::Unauthorized));
    assert_eq!(auth_middleware("", ""), Err(Rejection::Unauthorized));
}

#[test]
fn rejections_have_their_status_and_message() {
    assert_eq!(Rejection::Unauthorized.status(), 401);
    assert_eq!(Rejection::Unauthorized.message(), "Unauthorized");
    assert_eq!(Rejection::BadRequest.status(), 400);
    assert_eq!(Rejection::BadRequest.message(), "Invalid timestampUTC");
    assert_eq!(Rejection::UnknownVessel.status(), 403);
    assert_eq!(Rejection::UnknownVessel.message(), "Unknown or inactive vessel");
    assert_eq!(Rejection::StorageFailure.status(), 500);
    assert_eq!(Rejection::StorageFailure.message(), "Internal Server Error");
    assert_eq!(internal_err(), Rejection::StorageFailure);
}

#[test]
fn health_follows_the_database() {
    assert_eq!(healthz(true), Health::Healthy);
    assert_eq!(healthz(true).code(), 200);
    assert_eq!(healthz(true).status(), "ok");
    assert_eq!(healthz(true).db(), "up");
    assert_eq!(healthz(false), Health::Degraded);
    assert_eq!(healthz(false).code(), 503);
    assert_eq!(healthz(false).status(), "degraded");
    assert_eq!(healthz(false).db(), "down");
}

#[test]
fn configuration_is_built_from_the_settings() {
    let config = Config::from_env(some("postgres://db/telemetry"), some("s3cret"), some("9000"))
        .ok()
        .unwrap();
    assert_eq!(config.database_url, "postgres://db/telemetry");
    assert_eq!(config.api_token, "s3cret");
    assert_eq!(config.port, 9000);
}

#[test]
fn port_defaults_to_8080() {
    assert_eq!(DEFAULT_PORT, 8080);
    for port in [None, some(""), some("http"), some("70000"), some("-1"), some(" 9000")] {
        let config = Config::from_env(some("postgres://db"), some("s3cret"), port).ok().unwrap();
        assert_eq!(config.port, 8080);
    }
}

#[test]
fn missing_settings_are_reported_in_order() {
    assert_eq!(
        Config::from_env(None, None, None).err(),
        Some(ConfigError::MissingDatabaseUrl)
    );
    assert_eq!(
        Config::from_env(None, some("s3cret"), some("9000")).err(),
        Some(ConfigError::MissingDatabaseUrl)
    );
    assert_eq!(
        Config::from_env(some("postgres://db"), None, some("9000")).err(),
        Some(ConfigError::MissingApiToken)
    );
    assert_eq!(
        Config::from_env(None, some("  "), None).err(),
        Some(ConfigError::MissingDatabaseUrl)
    );
}

#[test]
fn blank_token_is_refused() {
    for token in ["", " ", "\t\n", "\u{a0} "] {
        assert_eq!(
            Config::from_env(some("postgres://db"), some(token), None).err(),
            Some(ConfigError::EmptyApiToken)
        );
    }
    assert!(Config::from_env(some("postgres://db"), some(" x "), None).is_ok());
}

#[test]
fn configuration_errors_have_their_messages() {
    assert_eq!(
        ConfigError::MissingDatabaseUrl.message(),
        "DATABASE_URL environment variable is required"
    );
    assert_eq!(
        ConfigError::MissingApiToken.message(),
        "API_TOKEN environment variable is required"
    );
    assert_eq!(ConfigError::EmptyApiToken.message(), "API_TOKEN must not be empty");
}
