//! Configuration of the compliance backend: the sections whose values are
//! whole numbers, flags and text, each with its defaults.

use vstd::prelude::*;

verus! {

/// Server configuration.
#[derive(Debug, Clone)]
pub struct ServerConfig {
    /// Server host
    pub host: String,
    /// Server port
    pub port: u16,
    /// Maximum request body size in bytes
    pub max_body_size: usize,
    /// Request timeout in seconds
    pub request_timeout: u64,
    /// CORS configuration
    pub cors: CorsConfig,
}

/// CORS configuration.
#[derive(Debug, Clone)]
pub struct CorsConfig {
    /// Allowed origins
    pub allowed_origins: Vec<String>,
    /// Allowed methods
    pub allowed_methods: Vec<String>,
    /// Allowed headers
    pub allowed_headers: Vec<String>,
    /// Max age for preflight requests
    pub max_age: u64,
}

/// Database configuration.
#[derive(Debug, Clone)]
pub struct DatabaseConfig {
    /// Database URL
    pub url: String,
    /// Maximum number of connections
    pub max_connections: u32,
    /// Connection timeout in seconds
    pub connection_timeout: u64,
    /// Idle timeout in seconds
    pub idle_timeout: u64,
    /// Run migrations on startup
    pub run_migrations: bool,
}

/// Miden client configuration. Paths are held as text.
#[derive(Debug, Clone)]
pub struct MidenConfig {
    /// Miden node RPC endpoint
    pub rpc_endpoint: String,
    /// Store path for the Miden client
    pub store_path: String,
    /// Keystore path
    pub keystore_path: String,
    /// Remote prover endpoint (optional)
    pub remote_prover_endpoint: Option<String>,
    /// Enable debug mode
    pub debug_mode: bool,
    /// Maximum number of accounts to track
    pub max_accounts: u32,
    /// Sync interval in seconds
    pub sync_interval: u64,
    /// Transaction timeout in seconds
    pub transaction_timeout: u64,
    /// Enable delegated proving
    pub enable_delegated_proving: bool,
}

/// Transaction monitoring configuration.
#[derive(Debug, Clone)]
pub struct TransactionMonitoringConfig {
    /// Maximum transaction amount for low risk
    pub max_amount_low_risk: u64,
    /// Maximum transaction amount for medium risk
    pub max_amount_medium_risk: u64,
    /// Maximum daily transaction count
    pub max_daily_transactions: u32,
    /// Suspicious pattern detection
    pub enable_pattern_detection: bool,
}

/// Attestation configuration.
#[derive(Debug, Clone)]
pub struct AttestationConfig {
    /// Attestation validity period in days
    pub validity_period_days: u32,
    /// Enable proof verification
    pub enable_proof_verification: bool,
    /// Proof verification timeout in seconds
    pub proof_verification_timeout: u64,
    /// Maximum proof size in bytes
    pub max_proof_size: usize,
}

/// Webhook configuration.
#[derive(Debug, Clone)]
pub struct WebhookConfig {
    /// Enable webhooks
    pub enabled: bool,
    /// Webhook timeout in seconds
    pub timeout: u64,
    /// Maximum retry attempts
    pub max_retries: u32,
    /// Retry delay in seconds
    pub retry_delay: u64,
    /// Webhook secret for signature verification
    pub secret: String,
}

/// Security configuration.
#[derive(Debug, Clone)]
pub struct SecurityConfig {
    /// API key length
    pub api_key_length: usize,
    /// JWT secret
    pub jwt_secret: String,
    /// JWT expiry in seconds
    pub jwt_expiry: u64,
    /// Rate limiting configuration
    pub rate_limiting: RateLimitConfig,
    /// Enable API key authentication
    pub enable_api_key_auth: bool,
}

/// Rate limiting configuration.
#[derive(Debug, Clone)]
pub struct RateLimitConfig {
    /// Requests per minute
    pub requests_per_minute: u32,
    /// Requests per hour
    pub requests_per_hour: u32,
    /// Requests per day
    pub requests_per_day: u32,
    /// Burst size
    pub burst_size: u32,
}

/// Logging configuration. The log file's path is held as text.
#[derive(Debug, Clone)]
pub struct LoggingConfig {
    /// Log level
    pub level: String,
    /// Log format (json or text)
    pub format: String,
    /// Enable request logging
    pub log_requests: bool,
    /// Enable response logging
    pub log_responses: bool,
    /// Log file path (optional)
    pub log_file: Option<String>,
}

impl CorsConfig {
    /// Any origin and any header, the four common methods, one hour.
    pub open spec fn is_default(&self) -> bool {
        &&& self.allowed_origins@.len() == 1
        &&& self.allowed_origins@[0]@ == "*"@
        &&& self.allowed_methods@.len() == 4
        &&& self.allowed_methods@[0]@ == "GET"@
        &&& self.allowed_methods@[1]@ == "POST"@
        &&& self.allowed_methods@[2]@ == "PUT"@
        &&& self.allowed_methods@[3]@ == "DELETE"@
        &&& self.allowed_headers@.len() == 1
        &&& self.allowed_headers@[0]@ == "*"@
        &&& self.max_age == 3600
    }
}

impl Default for CorsConfig {
    fn default() -> (config: Self)
        ensures
            config.is_default(),
    {
        CorsConfig {
            allowed_origins: vec!["*".to_string()],
            allowed_methods: vec![
                "GET".to_string(),
                "POST".to_string(),
                "PUT".to_string(),
                "DELETE".to_string(),
            ],
            allowed_headers: vec!["*".to_string()],
            max_age: 3600,
        }
    }
}

impl ServerConfig {
    /// Every interface on port 8080, bodies up to ten mebibytes, thirty
    /// seconds per request, default CORS.
    pub open spec fn is_default(&self) -> bool {
        &&& self.host@ == "0.0.0.0"@
        &&& self.port == 8080
        &&& self.max_body_size == 10 * 1024 * 1024
        &&& self.request_timeout == 30
        &&& self.cors.is_default()
    }
}

impl Default for ServerConfig {
    fn default() -> (config: Self)
        ensures
            config.is_default(),
    {
        ServerConfig {
            host: "0.0.0.0".to_string(),
            port: 8080,
            max_body_size: 10 * 1024 * 1024,
            request_timeout: 30,
            cors: CorsConfig::default(),
        }
    }
}

impl DatabaseConfig {
    /// The local compliance database, twenty connections, migrations on.
    pub open spec fn is_default(&self) -> bool {
        &&& self.url@ == "postgresql://localhost/compliance"@
        &&& self.max_connections == 20
        &&& self.connection_timeout == 30
        &&& self.idle_timeout == 600
        &&& self.run_migrations
    }
}

impl Default for DatabaseConfig {
    fn default() -> (config: Self)
        ensures
            config.is_default(),
    {
        DatabaseConfig {
            url: "postgresql://localhost/compliance".to_string(),
            max_connections: 20,
            connection_timeout: 30,
            idle_timeout: 600,
            run_migrations: true,
        }
    }
}

impl MidenConfig {
    /// The public test network, local store and keystore, no remote prover.
    pub open spec fn is_default(&self) -> bool {
        &&& self.rpc_endpoint@ == "https://testnet-rpc.miden.io"@
        &&& self.store_path@ == "./miden_store.sqlite3"@
        &&& self.keystore_path@ == "./miden_keystore"@
        &&& self.remote_prover_endpoint is None
        &&& !self.debug_mode
        &&& self.max_accounts == 1000
        &&& self.sync_interval == 30
        &&& self.transaction_timeout == 60
        &&& !self.enable_delegated_proving
    }
}

impl Default for MidenConfig {
    fn default() -> (config: Self)
        ensures
            config.is_default(),
    {
        MidenConfig {
            rpc_endpoint: "https://testnet-rpc.miden.io".to_string(),
            store_path: "./miden_store.sqlite3".to_string(),
            keystore_path: "./miden_keystore".to_string(),
            remote_prover_endpoint: None,
            debug_mode: false,
            max_accounts: 1000,
            sync_interval: 30,
            transaction_timeout: 60,
            enable_delegated_proving: false,
        }
    }
}

impl TransactionMonitoringConfig {
    /// Low risk up to 1,000, medium up to 10,000, a hundred transactions a
    /// day, pattern detection on.
    pub open spec fn is_default(&self) -> bool {
        &&& self.max_amount_low_risk == 1000
        &&& self.max_amount_medium_risk == 10000
        &&& self.max_daily_transactions == 100
        &&& self.enable_pattern_detection
    }
}

impl Default for TransactionMonitoringConfig {
    fn default() -> (config: Self)
        ensures
            config.is_default(),
    {
        TransactionMonitoringConfig {
            max_amount_low_risk: 1000,
            max_amount_medium_risk: 10000,
            max_daily_transactions: 100,
            enable_pattern_detection: true,
        }
    }
}

impl AttestationConfig {
    /// Ninety days of validity, proofs verified within two minutes, proofs up
    /// to one mebibyte.
    pub open spec fn is_default(&self) -> bool {
        &&& self.validity_period_days == 90
        &&& self.enable_proof_verification
        &&& self.proof_verification_timeout == 120
        &&& self.max_proof_size == 1024 * 1024
    }
}

impl Default for AttestationConfig {
    fn default() -> (config: Self)
        ensures
            config.is_default(),
    {
        AttestationConfig {
            validity_period_days: 90,
            enable_proof_verification: true,
            proof_verification_timeout: 120,
            max_proof_size: 1024 * 1024,
        }
    }
}

impl WebhookConfig {
    /// Webhooks on, thirty seconds each, three retries five seconds apart.
    pub open spec fn is_default(&self) -> bool {
        &&& self.enabled
        &&& self.timeout == 30
        &&& self.max_retries == 3
        &&& self.retry_delay == 5
        &&& self.secret@ == "default_webhook_secret"@
    }
}

impl Default for WebhookConfig {
    fn default() -> (config: Self)
        ensures
            config.is_default(),
    {
        WebhookConfig {
            enabled: true,
            timeout: 30,
            max_retries: 3,
            retry_delay: 5,
            secret: "default_webhook_secret".to_string(),
        }
    }
}

impl RateLimitConfig {
    /// A hundred requests a minute, a thousand an hour, ten thousand a day,
    /// bursts of ten.
    pub open spec fn is_default(&self) -> bool {
        &&& self.requests_per_minute == 100
        &&& self.requests_per_hour == 1000
        &&& self.requests_per_day == 10000
        &&& self.burst_size == 10
    }
}

impl Default for RateLimitConfig {
    fn default() -> (config: Self)
        ensures
            config.is_default(),
    {
        RateLimitConfig {
            requests_per_minute: 100,
            requests_per_hour: 1000,
            requests_per_day: 10000,
            burst_size: 10,
        }
    }
}

impl SecurityConfig {
    /// Keys of thirty-two characters, tokens valid for an hour, default rate
    /// limits, key authentication on.
    pub open spec fn is_default(&self) -> bool {
        &&& self.api_key_length == 32
        &&& self.jwt_secret@ == "default_jwt_secret"@
        &&& self.jwt_expiry == 3600
        &&& self.rate_limiting.is_default()
        &&& self.enable_api_key_auth
    }
}

impl Default for SecurityConfig {
    fn default() -> (config: Self)
        ensures
            config.is_default(),
    {
        SecurityConfig {
            api_key_length: 32,
            jwt_secret: "default_jwt_secret".to_string(),
            jwt_expiry: 3600,
            rate_limiting: RateLimitConfig::default(),
            enable_api_key_auth: true,
        }
    }
}

impl LoggingConfig {
    /// Level `info` as JSON, requests logged, responses not, no log file.
    pub open spec fn is_default(&self) -> bool {
        &&& self.level@ == "info"@
        &&& self.format@ == "json"@
        &&& self.log_requests
        &&& !self.log_responses
        &&& self.log_file is None
    }
}

impl Default for LoggingConfig {
    fn default() -> (config: Self)
        ensures
            config.is_default(),
    {
        LoggingConfig {
            level: "info".to_string(),
            format: "json".to_string(),
            log_requests: true,
            log_responses: false,
            log_file: None,
        }
    }
}

} // verus!
