use crate_checker::config::{AppConfig, CrateClientBuilder, EnvironmentConfig};
use crate_checker::{DEFAULT_API_URL, DEFAULT_SERVER_PORT};

#[test]
fn test_default_config() {
    let config = AppConfig::default();
    assert_eq!(config.server.port, DEFAULT_SERVER_PORT);
    assert_eq!(config.crates_io.api_url, DEFAULT_API_URL);
    assert!(config.validate().is_ok());
}

#[test]
fn test_environment_overrides() {
    let env_config = EnvironmentConfig {
        is_development: true,
        is_production: false,
        is_test: false,
    };

    let mut config = AppConfig::default();
    env_config.apply_overrides(&mut config);

    assert_eq!(config.logging.level, "debug");
    assert!(!config.cache.enabled);
    assert!(!config.rate_limiting.enabled);
}

#[test]
fn test_bind_address() {
    let config = AppConfig::default();
    assert!(config
        .bind_address()
        .contains(&config.server.port.to_string()));
}

#[test]
fn test_bind_address_exact() {
    let mut config = AppConfig::default();
    config.server.host = "127.0.0.1".to_string();
    config.server.port = 8080;
    assert_eq!(config.bind_address(), "127.0.0.1:8080");
}

#[test]
fn test_default_workers_at_least_one() {
    let config = AppConfig::default();
    assert!(config.server.workers >= 1);
}

#[test]
fn test_validate_rejects_zero_port() {
    let mut config = AppConfig::default();
    config.server.port = 0;
    assert_eq!(config.validate(), Err("Server port cannot be 0".to_string()));
}

#[test]
fn test_validate_rejects_bad_log_level() {
    let mut config = AppConfig::default();
    config.logging.level = "loud".to_string();
    assert_eq!(config.validate(), Err("Invalid log level: loud".to_string()));
}

#[test]
fn test_validate_rejects_zero_cache_entries_when_enabled() {
    let mut config = AppConfig::default();
    config.cache.enabled = true;
    config.cache.max_entries = 0;
    assert_eq!(
        config.validate(),
        Err("Cache max entries cannot be 0 when caching is enabled".to_string())
    );
    config.cache.enabled = false;
    assert!(config.validate().is_ok());
}

#[test]
fn test_production_overrides() {
    let env_config = EnvironmentConfig {
        is_development: false,
        is_production: true,
        is_test: false,
    };
    let mut config = AppConfig::default();
    env_config.apply_overrides(&mut config);
    assert_eq!(config.logging.level, "info");
    assert!(config.logging.structured);
    assert!(config.cache.enabled);
    assert!(config.rate_limiting.enabled);
}

#[test]
fn test_client_builder() {
    let builder = CrateClientBuilder::default()
        .base_url("https://example.invalid/api/v1")
        .user_agent("tester/1.0")
        .timeout(7);
    let (base_url, user_agent, timeout) = builder.resolved();
    assert_eq!(base_url, "https://example.invalid/api/v1");
    assert_eq!(user_agent, "tester/1.0");
    assert_eq!(timeout, 7);
}

#[test]
fn test_client_builder_defaults() {
    let (base_url, user_agent, timeout) = CrateClientBuilder::default().resolved();
    assert_eq!(base_url, DEFAULT_API_URL);
    assert_eq!(user_agent, "crate-checker/0.1.0");
    assert_eq!(timeout, 30);
}
