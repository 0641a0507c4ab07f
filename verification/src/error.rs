//! Error handling for the compliance backend.

use vstd::prelude::*;
use vstd::std_specs::convert::FromSpecImpl;

use crate::types::ComplianceLevel;

verus! {

/// `sqlx::Error`, carried as it is: nothing is read of it.
#[verifier::external_type_specification]
#[verifier::external_body]
pub struct ExDatabaseError(sqlx::Error);

/// `serde_json::Error`, carried as it is: nothing is read of it.
#[verifier::external_type_specification]
#[verifier::external_body]
pub struct ExSerializationError(serde_json::Error);

/// `reqwest::Error`, carried as it is: nothing is read of it.
#[verifier::external_type_specification]
#[verifier::external_body]
pub struct ExHttpError(reqwest::Error);

/// `std::io::Error`, carried as it is: nothing is read of it.
#[verifier::external_type_specification]
#[verifier::external_body]
pub struct ExIoError(std::io::Error);

/// `config::ConfigError`, carried as it is: nothing is read of it.
#[verifier::external_type_specification]
#[verifier::external_body]
pub struct ExConfigError(::config::ConfigError);

/// Main error type for the compliance backend.
#[derive(Debug)]
pub enum ComplianceError {
    /// The ledger client reported a failure; the payload is its message.
    MidenClient(String),
    Database(sqlx::Error),
    Serialization(serde_json::Error),
    Http(reqwest::Error),
    Io(std::io::Error),
    Config(::config::ConfigError),
    Crypto { message: String },
    KycVerificationFailed { reason: String },
    AmlScreeningFailed { reason: String },
    SanctionsScreeningFailed { reason: String },
    ComplianceAttestation { reason: String },
    AccountNotFound { account_id: String },
    InsufficientPrivileges { required_level: ComplianceLevel },
    InvalidProof { reason: String },
    RateLimitExceeded,
    InvalidApiKey,
    WebhookDeliveryFailed { url: String },
    TransactionExecutionFailed { reason: String },
    AccountComponentCompilationFailed { reason: String },
    NoteScriptCompilationFailed { reason: String },
    ProofGenerationFailed { reason: String },
    Internal { message: String },
    Validation { field: String, message: String },
    BusinessClientNotFound { client_id: String },
    CompliancePolicyViolation { policy: String },
    CrossChainOperationFailed { chain: String, reason: String },
    DelegatedProvingFailed { reason: String },
}

/// Result type for the compliance backend.
pub type Result<T> = std::result::Result<T, ComplianceError>;

impl ComplianceError {
    /// Whether the caller, rather than the service, is at fault.
    pub open spec fn client_fault(&self) -> bool {
        ||| self is AccountNotFound
        ||| self is InsufficientPrivileges
        ||| self is InvalidProof
        ||| self is RateLimitExceeded
        ||| self is InvalidApiKey
        ||| self is Validation
        ||| self is BusinessClientNotFound
        ||| self is CompliancePolicyViolation
    }

    /// The HTTP status that reports this error.
    pub open spec fn http_status(&self) -> int {
        match self {
            ComplianceError::AccountNotFound { .. } => 404,
            ComplianceError::BusinessClientNotFound { .. } => 404,
            ComplianceError::InsufficientPrivileges { .. } => 401,
            ComplianceError::InvalidApiKey => 401,
            ComplianceError::CompliancePolicyViolation { .. } => 403,
            ComplianceError::RateLimitExceeded => 429,
            ComplianceError::Validation { .. } | ComplianceError::InvalidProof { .. } => 400,
            _ => 500,
        }
    }

    /// Create a new crypto error.
    pub fn crypto(message: &str) -> (err: Self)
        ensures
            err is Crypto,
            err->Crypto_message@ == message@,
    {
        ComplianceError::Crypto { message: message.to_string() }
    }

    /// Create a new internal error.
    pub fn internal(message: &str) -> (err: Self)
        ensures
            err is Internal,
            err->Internal_message@ == message@,
    {
        ComplianceError::Internal { message: message.to_string() }
    }

    /// Create a new validation error.
    pub fn validation(field: &str, message: &str) -> (err: Self)
        ensures
            err is Validation,
            err->field@ == field@,
            err->Validation_message@ == message@,
    {
        ComplianceError::Validation { field: field.to_string(), message: message.to_string() }
    }

    /// Check if the error is a client error (4xx).
    pub fn is_client_error(&self) -> (client: bool)
        ensures
            client == self.client_fault(),
            client == (400 <= self.http_status() < 500),
    {
        match self {
            ComplianceError::AccountNotFound { .. } => true,
            ComplianceError::InsufficientPrivileges { .. } => true,
            ComplianceError::InvalidProof { .. } => true,
            ComplianceError::RateLimitExceeded => true,
            ComplianceError::InvalidApiKey => true,
            ComplianceError::Validation { .. } => true,
            ComplianceError::BusinessClientNotFound { .. } => true,
            ComplianceError::CompliancePolicyViolation { .. } => true,
            _ => false,
        }
    }

    /// Check if the error is a server error (5xx).
    pub fn is_server_error(&self) -> (server: bool)
        ensures
            server == !self.client_fault(),
            server == (self.http_status() == 500),
    {
        !self.is_client_error()
    }

    /// Get the HTTP status code for this error.
    pub fn status_code(&self) -> (code: u16)
        ensures
            code == self.http_status(),
    {
        match self {
            ComplianceError::AccountNotFound { .. } => 404,
            ComplianceError::BusinessClientNotFound { .. } => 404,
            ComplianceError::InsufficientPrivileges { .. } => 401,
            ComplianceError::InvalidApiKey => 401,
            ComplianceError::CompliancePolicyViolation { .. } => 403,
            ComplianceError::RateLimitExceeded => 429,
            ComplianceError::Validation { .. } => 400,
            ComplianceError::InvalidProof { .. } => 400,
            _ => 500,
        }
    }
}

/// A database error becomes the variant that carries it.
impl From<sqlx::Error> for ComplianceError {
    fn from(source: sqlx::Error) -> (err: Self) {
        ComplianceError::Database(source)
    }
}

impl FromSpecImpl<sqlx::Error> for ComplianceError {
    open spec fn obeys_from_spec() -> bool {
        true
    }

    open spec fn from_spec(source: sqlx::Error) -> Self {
        ComplianceError::Database(source)
    }
}

/// A serialization error becomes the variant that carries it.
impl From<serde_json::Error> for ComplianceError {
    fn from(source: serde_json::Error) -> (err: Self) {
        ComplianceError::Serialization(source)
    }
}

impl FromSpecImpl<serde_json::Error> for ComplianceError {
    open spec fn obeys_from_spec() -> bool {
        true
    }

    open spec fn from_spec(source: serde_json::Error) -> Self {
        ComplianceError::Serialization(source)
    }
}

/// A HTTP error becomes the variant that carries it.
impl From<reqwest::Error> for ComplianceError {
    fn from(source: reqwest::Error) -> (err: Self) {
        ComplianceError::Http(source)
    }
}

impl FromSpecImpl<reqwest::Error> for ComplianceError {
    open spec fn obeys_from_spec() -> bool {
        true
    }

    open spec fn from_spec(source: reqwest::Error) -> Self {
        ComplianceError::Http(source)
    }
}

/// A IO error becomes the variant that carries it.
impl From<std::io::Error> for ComplianceError {
    fn from(source: std::io::Error) -> (err: Self) {
        ComplianceError::Io(source)
    }
}

impl FromSpecImpl<std::io::Error> for ComplianceError {
    open spec fn obeys_from_spec() -> bool {
        true
    }

    open spec fn from_spec(source: std::io::Error) -> Self {
        ComplianceError::Io(source)
    }
}

/// A configuration error becomes the variant that carries it.
impl From<::config::ConfigError> for ComplianceError {
    fn from(source: ::config::ConfigError) -> (err: Self) {
        ComplianceError::Config(source)
    }
}

impl FromSpecImpl<::config::ConfigError> for ComplianceError {
    open spec fn obeys_from_spec() -> bool {
        true
    }

    open spec fn from_spec(source: ::config::ConfigError) -> Self {
        ComplianceError::Config(source)
    }
}

} // verus!
