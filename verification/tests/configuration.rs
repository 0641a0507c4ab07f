use compliance_backend::config::{
    AttestationConfig, CorsConfig, DatabaseConfig, LoggingConfig, MidenConfig, RateLimitConfig,
    SecurityConfig, ServerConfig, TransactionMonitoringConfig, WebhookConfig,
};

#[test]
fn server_defaults() {
    let config = ServerConfig::default();
    assert_eq!(config.host, "0.0.0.0");
    assert_eq!(config.port, 8080);
    assert_eq!(config.max_body_size, 10_485_760);
    assert_eq!(config.request_timeout, 30);
    assert_eq!(config.cors.max_age, 3600);
    assert_eq!(config.cors.allowed_origins, vec!["*"]);
}

#[test]
fn cors_defaults() {
    let config = CorsConfig::default();
    assert_eq!(config.allowed_origins, vec!["*"]);
    assert_eq!(config.allowed_methods, vec!["GET", "POST", "PUT", "DELETE"]);
    assert_eq!(config.allowed_headers, vec!["*"]);
    assert_eq!(config.max_age, 3600);
}

#[test]
fn database_defaults() {
    let config = DatabaseConfig::default();
    assert_eq!(config.url, "postgresql://localhost/compliance");
    assert_eq!(config.max_connections, 20);
    assert_eq!(config.connection_timeout, 30);
    assert_eq!(config.idle_timeout, 600);
    assert!(config.run_migrations);
}

#[test]
fn miden_defaults() {
    let config = MidenConfig::default();
    assert_eq!(config.rpc_endpoint, "https://testnet-rpc.miden.io");
    assert_eq!(config.store_path, "./miden_store.sqlite3");
    assert_eq!(config.keystore_path, "./miden_keystore");
    assert_eq!(config.remote_prover_endpoint, None);
    assert!(!config.debug_mode);
    assert_eq!(config.max_accounts, 1000);
    assert_eq!(config.sync_interval, 30);
    assert_eq!(config.transaction_timeout, 60);
    assert!(!config.enable_delegated_proving);
}

#[test]
fn transaction_monitoring_defaults() {
    let config = TransactionMonitoringConfig::default();
    assert_eq!(config.max_amount_low_risk, 1000);
    assert_eq!(config.max_amount_medium_risk, 10000);
    assert_eq!(config.max_daily_transactions, 100);
    assert!(config.enable_pattern_detection);
}

#[test]
fn attestation_defaults() {
    let config = AttestationConfig::default();
    assert_eq!(config.validity_period_days, 90);
    assert!(config.enable_proof_verification);
    assert_eq!(config.proof_verification_timeout, 120);
    assert_eq!(config.max_proof_size, 1_048_576);
}

#[test]
fn webhook_defaults() {
    let config = WebhookConfig::default();
    assert!(config.enabled);
    assert_eq!(config.timeout, 30);
    assert_eq!(config.max_retries, 3);
    assert_eq!(config.retry_delay, 5);
    assert_eq!(config.secret, "default_webhook_secret");
}

#[test]
fn security_defaults() {
    let config = SecurityConfig::default();
    assert_eq!(config.api_key_length, 32);
    assert_eq!(config.jwt_secret, "default_jwt_secret");
    assert_eq!(config.jwt_expiry, 3600);
    assert_eq!(config.rate_limiting.requests_per_minute, 100);
    assert!(config.enable_api_key_auth);
}

#[test]
fn rate_limit_defaults() {
    let config = RateLimitConfig::default();
    assert_eq!(config.requests_per_minute, 100);
    assert_eq!(config.requests_per_hour, 1000);
    assert_eq!(config.requests_per_day, 10000);
    assert_eq!(config.burst_size, 10);
}

#[test]
fn logging_defaults() {
    let config = LoggingConfig::default();
    assert_eq!(config.level, "info");
    assert_eq!(config.format, "json");
    assert!(config.log_requests);
    assert!(!config.log_responses);
    assert_eq!(config.log_file, None);
}
