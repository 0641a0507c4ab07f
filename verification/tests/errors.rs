use compliance_backend::error::ComplianceError;
use compliance_backend::types::ComplianceLevel;

fn text(value: &str) -> String {
    value.to_string()
}

fn check(error: ComplianceError, status: u16, client: bool) {
    assert_eq!(error.status_code(), status);
    assert_eq!(error.is_client_error(), client);
    assert_eq!(error.is_server_error(), !client);
}

#[test]
fn constructors_build_their_variants() {
    match ComplianceError::crypto("bad key") {
        ComplianceError::Crypto { message } => assert_eq!(message, "bad key"),
        other => panic!("unexpected: {:?}", other),
    }
    match ComplianceError::internal("boom") {
        ComplianceError::Internal { message } => assert_eq!(message, "boom"),
        other => panic!("unexpected: {:?}", other),
    }
    match ComplianceError::validation("amount", "must be positive") {
        ComplianceError::Validation { field, message } => {
            assert_eq!(field, "amount");
            assert_eq!(message, "must be positive");
        }
        other => panic!("unexpected: {:?}", other),
    }
}

#[test]
fn not_found_errors_are_404() {
    check(ComplianceError::AccountNotFound { account_id: text("a") }, 404, true);
    check(ComplianceError::BusinessClientNotFound { client_id: text("c") }, 404, true);
}

#[test]
fn unauthorized_errors_are_401() {
    check(
        ComplianceError::InsufficientPrivileges {
            required_level: ComplianceLevel::Enhanced,
        },
        401,
        true,
    );
    check(ComplianceError::InvalidApiKey, 401, true);
}

#[test]
fn policy_violation_is_403_and_rate_limit_is_429() {
    check(ComplianceError::CompliancePolicyViolation { policy: text("p") }, 403, true);
    check(ComplianceError::RateLimitExceeded, 429, true);
}

#[test]
fn bad_requests_are_400() {
    check(ComplianceError::validation("f", "m"), 400, true);
    check(ComplianceError::InvalidProof { reason: text("r") }, 400, true);
}

#[test]
fn domain_failures_are_server_errors() {
    check(ComplianceError::crypto("m"), 500, false);
    check(ComplianceError::internal("m"), 500, false);
    check(ComplianceError::MidenClient(text("m")), 500, false);
    check(ComplianceError::KycVerificationFailed { reason: text("r") }, 500, false);
    check(ComplianceError::AmlScreeningFailed { reason: text("r") }, 500, false);
    check(ComplianceError::SanctionsScreeningFailed { reason: text("r") }, 500, false);
    check(ComplianceError::ComplianceAttestation { reason: text("r") }, 500, false);
    check(ComplianceError::WebhookDeliveryFailed { url: text("u") }, 500, false);
    check(ComplianceError::TransactionExecutionFailed { reason: text("r") }, 500, false);
    check(ComplianceError::AccountComponentCompilationFailed { reason: text("r") }, 500, false);
    check(ComplianceError::NoteScriptCompilationFailed { reason: text("r") }, 500, false);
    check(ComplianceError::ProofGenerationFailed { reason: text("r") }, 500, false);
    check(
        ComplianceError::CrossChainOperationFailed {
            chain: text("c"),
            reason: text("r"),
        },
        500,
        false,
    );
    check(ComplianceError::DelegatedProvingFailed { reason: text("r") }, 500, false);
}

#[test]
fn database_error_converts_and_is_server_error() {
    let error = ComplianceError::from(sqlx::Error::RowNotFound);
    assert!(matches!(error, ComplianceError::Database(sqlx::Error::RowNotFound)));
    check(error, 500, false);
}

#[test]
fn serialization_error_converts_and_is_server_error() {
    let source = serde_json::from_str::<serde_json::Value>("{").unwrap_err();
    let line = source.line();
    let error = ComplianceError::from(source);
    match &error {
        ComplianceError::Serialization(inner) => assert_eq!(inner.line(), line),
        other => panic!("unexpected: {:?}", other),
    }
    check(error, 500, false);
}

#[test]
fn io_error_converts_and_is_server_error() {
    let source = std::io::Error::new(std::io::ErrorKind::NotFound, "missing");
    let error = ComplianceError::from(source);
    match &error {
        ComplianceError::Io(inner) => assert_eq!(inner.kind(), std::io::ErrorKind::NotFound),
        other => panic!("unexpected: {:?}", other),
    }
    check(error, 500, false);
}

#[test]
fn config_error_converts_and_is_server_error() {
    let error = ComplianceError::from(config::ConfigError::NotFound(text("server.port")));
    match &error {
        ComplianceError::Config(config::ConfigError::NotFound(key)) => {
            assert_eq!(key, "server.port")
        }
        other => panic!("unexpected: {:?}", other),
    }
    check(error, 500, false);
}

#[test]
fn http_error_converts_and_is_server_error() {
    let source = reqwest::Client::new().get("not a url").build().unwrap_err();
    assert!(source.is_builder());
    let error = ComplianceError::from(source);
    match &error {
        ComplianceError::Http(inner) => assert!(inner.is_builder()),
        other => panic!("unexpected: {:?}", other),
    }
    check(error, 500, false);
}

#[test]
fn question_mark_converts_outside_errors() {
    fn parse(input: &str) -> compliance_backend::Result<serde_json::Value> {
        let value = serde_json::from_str::<serde_json::Value>(input)?;
        Ok(value)
    }
    assert!(parse("[1, 2]").is_ok());
    assert!(matches!(parse("[1, 2"), Err(ComplianceError::Serialization(_))));
}
