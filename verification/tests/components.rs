use compliance_backend::compliance::account_components::{
    compilation_result, compile_aml_component, compile_kyc_component,
    compile_sanctions_component, AML_ACCOUNT_COMPONENT_CODE, AML_FAILURE_PREFIX,
    KYC_ACCOUNT_COMPONENT_CODE, KYC_FAILURE_PREFIX, SANCTIONS_FAILURE_PREFIX,
    SANCTIONS_SCREENING_COMPONENT_CODE,
};
use compliance_backend::error::ComplianceError;
use miden_lib::transaction::TransactionKernel;
use miden_objects::account::AccountComponent;
use miden_objects::AccountError;

const SMALL_COMPONENT: &str = "export.answer\n    push.42\nend\n";

fn assert_component_or_failure(
    result: Result<AccountComponent, ComplianceError>,
    prefix: &str,
) {
    match result {
        Ok(component) => assert_eq!(component.storage_size(), 0),
        Err(ComplianceError::AccountComponentCompilationFailed { reason }) => {
            assert!(reason.starts_with(prefix), "reason was: {}", reason)
        }
        Err(other) => panic!("unexpected failure: {:?}", other),
    }
}

#[test]
fn kyc_component_compiles_or_reports_compilation_failure() {
    assert_component_or_failure(compile_kyc_component(), "Failed to compile KYC component: ");
}

#[test]
fn aml_component_compiles_or_reports_compilation_failure() {
    assert_component_or_failure(compile_aml_component(), "Failed to compile AML component: ");
}

#[test]
fn sanctions_component_compiles_or_reports_compilation_failure() {
    assert_component_or_failure(
        compile_sanctions_component(),
        "Failed to compile sanctions component: ",
    );
}

#[test]
fn failure_prefixes() {
    assert_eq!(KYC_FAILURE_PREFIX, "Failed to compile KYC component: ");
    assert_eq!(AML_FAILURE_PREFIX, "Failed to compile AML component: ");
    assert_eq!(SANCTIONS_FAILURE_PREFIX, "Failed to compile sanctions component: ");
}

#[test]
fn component_sources_export_their_procedures() {
    assert!(KYC_ACCOUNT_COMPONENT_CODE.contains("export.verify_kyc_data"));
    assert!(KYC_ACCOUNT_COMPONENT_CODE.contains("proc.update_compliance_level"));
    assert!(AML_ACCOUNT_COMPONENT_CODE.contains("export.assess_aml_risk"));
    assert!(AML_ACCOUNT_COMPONENT_CODE.contains("proc.check_suspicious_patterns"));
    assert!(SANCTIONS_SCREENING_COMPONENT_CODE.contains("export.screen_sanctions"));
    assert!(SANCTIONS_SCREENING_COMPONENT_CODE.contains("proc.manual_override"));
}

#[test]
fn compilation_result_hands_a_component_on() {
    let compiled = AccountComponent::compile(SMALL_COMPONENT, TransactionKernel::assembler(), vec![]);
    let component = compiled.expect("the small component assembles");
    let expected = component.clone();
    match compilation_result(Ok(component), "prefix: ") {
        Ok(handed_on) => assert_eq!(handed_on, expected),
        Err(other) => panic!("unexpected failure: {:?}", other),
    }
}

#[test]
fn compilation_result_prefixes_the_assembler_message() {
    let failure = AccountError::AccountCodeNoProcedures;
    let message = failure.to_string();
    match compilation_result(Err(failure), "Failed to compile KYC component: ") {
        Err(ComplianceError::AccountComponentCompilationFailed { reason }) => {
            assert_eq!(reason, format!("Failed to compile KYC component: {}", message));
            assert_eq!(
                reason,
                "Failed to compile KYC component: account code must contain at least one non-auth procedure"
            );
        }
        other => panic!("unexpected result: {:?}", other),
    }
}

#[test]
fn compilation_result_reports_a_source_that_does_not_assemble() {
    let compiled = AccountComponent::compile(
        "this is not assembly",
        TransactionKernel::assembler(),
        vec![],
    );
    assert!(compiled.is_err());
    match compilation_result(compiled, "Failed to compile AML component: ") {
        Err(ComplianceError::AccountComponentCompilationFailed { reason }) => {
            assert!(reason.starts_with("Failed to compile AML component: "));
            assert!(reason.len() > "Failed to compile AML component: ".len());
        }
        other => panic!("unexpected result: {:?}", other),
    }
}

fn assert_same_outcome(
    first: Result<AccountComponent, ComplianceError>,
    second: Result<AccountComponent, ComplianceError>,
) {
    match (first, second) {
        (Ok(first), Ok(second)) => assert_eq!(first, second),
        (
            Err(ComplianceError::AccountComponentCompilationFailed { reason: first }),
            Err(ComplianceError::AccountComponentCompilationFailed { reason: second }),
        ) => assert_eq!(first, second),
        (first, second) => panic!("outcomes differ: {:?} and {:?}", first, second),
    }
}

fn compiled_directly(source_code: &str, prefix: &str) -> Result<AccountComponent, ComplianceError> {
    let compiled = AccountComponent::compile(source_code, TransactionKernel::assembler(), vec![]);
    compilation_result(compiled, prefix)
}

#[test]
fn compiling_twice_gives_the_same_outcome() {
    assert_same_outcome(compile_kyc_component(), compile_kyc_component());
    assert_same_outcome(compile_aml_component(), compile_aml_component());
    assert_same_outcome(compile_sanctions_component(), compile_sanctions_component());
}

#[test]
fn components_are_compiled_from_their_sources_under_the_kernel() {
    assert_same_outcome(
        compile_kyc_component(),
        compiled_directly(KYC_ACCOUNT_COMPONENT_CODE, KYC_FAILURE_PREFIX),
    );
    assert_same_outcome(
        compile_aml_component(),
        compiled_directly(AML_ACCOUNT_COMPONENT_CODE, AML_FAILURE_PREFIX),
    );
    assert_same_outcome(
        compile_sanctions_component(),
        compiled_directly(SANCTIONS_SCREENING_COMPONENT_CODE, SANCTIONS_FAILURE_PREFIX),
    );
}

#[test]
fn small_component_assembles_the_same_way_twice() {
    let first = compiled_directly(SMALL_COMPONENT, "prefix: ");
    let second = compiled_directly(SMALL_COMPONENT, "prefix: ");
    assert!(first.is_ok());
    assert_same_outcome(first, second);
}
