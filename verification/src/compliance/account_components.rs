//! Account components: the procedures of the three state machines as
//! Miden Assembly, and their compilation for the ledger.

use vstd::prelude::*;
use vstd::string::{to_string_from_display_ensures, StringExecFns};

use miden_lib::transaction::TransactionKernel;
use miden_objects::account::AccountComponent;
use miden_objects::AccountError;

use crate::error::ComplianceError;

verus! {

/// `miden_objects::account::AccountComponent`, carried as it is.
#[verifier::external_type_specification]
#[verifier::external_body]
pub struct ExAccountComponent(AccountComponent);

/// `miden_objects::AccountError`, carried as it is; only its message is read.
#[verifier::external_type_specification]
#[verifier::external_body]
pub struct ExAccountError(AccountError);

/// KYC Account Component Code in Miden Assembly
pub const KYC_ACCOUNT_COMPONENT_CODE: &'static str = r#"
# KYC Account Component
# This component handles privacy-preserving KYC verification

# Storage slots:
# - slot 0: KYC status (0=pending, 1=verified, 2=rejected, 3=expired)
# - slot 1: KYC hash (hash of encrypted KYC data)
# - slot 2: Verification timestamp
# - slot 3: Expiry timestamp
# - slot 4: Verifier ID (hash of verifier public key)
# - slot 5: Compliance level (0=basic, 1=standard, 2=enhanced, 3=institutional)

use.std::sys

# Export KYC verification interface
export.verify_kyc_data
export.get_kyc_status
export.update_kyc_status
export.verify_kyc_proof
export.get_compliance_level
export.update_compliance_level

# Verify KYC data with zero-knowledge proof
# Input: [kyc_data_hash, verifier_id, compliance_level, proof_data]
# Output: [success_flag]
proc.verify_kyc_data
    # Load current KYC status
    push.0 mem_load
    
    # Check if already verified (status == 1)
    push.1 eq
    if.true
        # Already verified, return success
        push.1
        return
    end
    
    # Verify the proof data
    # This would involve verifying the ZK proof of KYC data
    # For now, we'll simulate by checking the hash
    mem_load.1 # Load stored KYC hash
    dup.3 # Duplicate provided hash
    eq
    if.true
        # Hash matches, update status to verified
        push.1 push.0 mem_store # Set status to verified
        
        # Store verifier ID
        dup.2 push.4 mem_store
        
        # Store compliance level
        dup.1 push.5 mem_store
        
        # Store verification timestamp
        sys.time_now push.2 mem_store
        
        # Calculate expiry (1 year from now)
        sys.time_now push.31536000 add push.3 mem_store
        
        push.1 # Success
    else
        push.0 # Failure
    end
end

# Get KYC status
# Output: [status, verification_time, expiry_time, compliance_level]
proc.get_kyc_status
    push.0 mem_load # KYC status
    push.2 mem_load # Verification timestamp
    push.3 mem_load # Expiry timestamp
    push.5 mem_load # Compliance level
end

# Update KYC status (only by verifier)
# Input: [new_status, verifier_id]
# Output: [success_flag]
proc.update_kyc_status
    # Check if caller is authorized verifier
    push.4 mem_load # Stored verifier ID
    dup.1 # Duplicate provided verifier ID
    eq
    if.true
        # Authorized, update status
        dup.1 push.0 mem_store
        push.1 # Success
    else
        push.0 # Failure - unauthorized
    end
end

# Verify KYC proof without revealing data
# Input: [proof_commitment, challenge]
# Output: [verification_result]
proc.verify_kyc_proof
    # Load stored KYC hash
    push.1 mem_load
    
    # Verify proof commitment against stored hash
    # This would involve actual ZK proof verification
    # For now, we simulate by checking commitment
    dup.1 # Duplicate proof commitment
    eq
    if.true
        # Proof valid, return success
        push.1
    else
        # Proof invalid
        push.0
    end
end

# Get compliance level
# Output: [compliance_level]
proc.get_compliance_level
    push.5 mem_load
end

# Update compliance level (only by authorized verifier)
# Input: [new_level, verifier_id]
# Output: [success_flag]
proc.update_compliance_level
    # Check if caller is authorized verifier
    push.4 mem_load # Stored verifier ID
    dup.1 # Duplicate provided verifier ID
    eq
    if.true
        # Authorized, update compliance level
        dup.1 push.5 mem_store
        push.1 # Success
    else
        push.0 # Failure - unauthorized
    end
end
"#;

/// AML Account Component Code in Miden Assembly
pub const AML_ACCOUNT_COMPONENT_CODE: &'static str = r#"
# AML Account Component
# This component handles privacy-preserving AML risk assessment

# Storage slots:
# - slot 0: AML risk level (0=low, 1=medium, 2=high, 3=critical)
# - slot 1: Risk score (0-1000)
# - slot 2: Last assessment timestamp
# - slot 3: Transaction count
# - slot 4: Total transaction volume
# - slot 5: Suspicious activity flags

use.std::sys

export.assess_aml_risk
export.get_aml_status
export.update_risk_score
export.record_transaction
export.get_transaction_stats
export.check_suspicious_patterns

# Assess AML risk based on transaction patterns
# Input: [transaction_amount, transaction_type, counterparty_risk]
# Output: [risk_level, risk_score]
proc.assess_aml_risk
    # Load current risk score
    push.1 mem_load
    
    # Calculate risk based on transaction amount
    dup.3 # Duplicate transaction amount
    push.10000 # Large transaction threshold
    gte
    if.true
        # Large transaction, increase risk
        push.100 add
    end
    
    # Factor in counterparty risk
    dup.1 # Duplicate counterparty risk
    push.10 mul add
    
    # Update risk score
    dup.0 push.1 mem_store
    
    # Determine risk level
    dup.0 push.300 gte
    if.true
        push.2 # High risk
    else
        dup.0 push.150 gte
        if.true
            push.1 # Medium risk
        else
            push.0 # Low risk
        end
    end
    
    # Store risk level
    dup.0 push.0 mem_store
    
    # Update timestamp
    sys.time_now push.2 mem_store
end

# Get AML status
# Output: [risk_level, risk_score, last_assessment]
proc.get_aml_status
    push.0 mem_load # Risk level
    push.1 mem_load # Risk score
    push.2 mem_load # Last assessment
end

# Update risk score (manual override)
# Input: [new_score, new_level]
# Output: [success_flag]
proc.update_risk_score
    # Store new score
    dup.1 push.1 mem_store
    
    # Store new level
    dup.0 push.0 mem_store
    
    # Update timestamp
    sys.time_now push.2 mem_store
    
    push.1 # Success
end

# Record transaction for AML monitoring
# Input: [amount, transaction_type, counterparty_hash]
# Output: [success_flag]
proc.record_transaction
    # Increment transaction count
    push.3 mem_load
    push.1 add
    push.3 mem_store
    
    # Add to total volume
    push.4 mem_load
    dup.3 add
    push.4 mem_store
    
    # Check for suspicious patterns
    exec.check_suspicious_patterns
    
    push.1 # Success
end

# Get transaction statistics
# Output: [transaction_count, total_volume]
proc.get_transaction_stats
    push.3 mem_load # Transaction count
    push.4 mem_load # Total volume
end

# Check for suspicious transaction patterns
# Input: [amount, transaction_type, counterparty_hash]
# Output: [suspicious_flag]
proc.check_suspicious_patterns
    push.0 # Default: not suspicious
    
    # Check for round amounts (potential structuring)
    dup.3 push.10000 mod
    push.0 eq
    if.true
        # Round amount, potentially suspicious
        push.1 or
    end
    
    # Check for rapid transactions (velocity)
    # This would require more complex logic
    
    # Update suspicious activity flags if needed
    dup.0 push.0 neq
    if.true
        push.5 mem_load
        push.1 or
        push.5 mem_store
    end
end
"#;

/// Sanctions Screening Component Code in Miden Assembly
pub const SANCTIONS_SCREENING_COMPONENT_CODE: &'static str = r#"
# Sanctions Screening Component
# This component handles privacy-preserving sanctions screening

# Storage slots:
# - slot 0: Sanctions status (0=clear, 1=flagged, 2=blocked)
# - slot 1: Last screening timestamp
# - slot 2: Screening hash (hash of screening data)
# - slot 3: Sanctions list version
# - slot 4: False positive flag
# - slot 5: Manual override flag

use.std::sys

export.screen_sanctions
export.get_sanctions_status
export.update_sanctions_status
export.verify_screening_proof
export.manual_override

# Screen for sanctions matches
# Input: [identity_hash, sanctions_list_hash, screening_proof]
# Output: [sanctions_status, confidence_score]
proc.screen_sanctions
    # Store screening data hash
    dup.2 push.2 mem_store
    
    # Update screening timestamp
    sys.time_now push.1 mem_store
    
    # Verify screening proof
    exec.verify_screening_proof
    
    # If proof is valid, trust the result
    if.true
        # Extract status from proof (simplified)
        dup.0 push.1000 mod # Extract status
        push.0 mem_store # Store sanctions status
        
        push.1 # High confidence
    else
        # Proof invalid, flag for manual review
        push.1 push.0 mem_store # Flag as suspicious
        push.0 # Low confidence
    end
end

# Get sanctions screening status
# Output: [status, last_screening, confidence]
proc.get_sanctions_status
    push.0 mem_load # Sanctions status
    push.1 mem_load # Last screening
    push.2 mem_load # Screening hash (as confidence indicator)
end

# Update sanctions status (manual override)
# Input: [new_status, override_reason]
# Output: [success_flag]
proc.update_sanctions_status
    # Store new status
    dup.1 push.0 mem_store
    
    # Set manual override flag
    push.1 push.5 mem_store
    
    # Update timestamp
    sys.time_now push.1 mem_store
    
    push.1 # Success
end

# Verify sanctions screening proof
# Input: [screening_proof]
# Output: [verification_result]
proc.verify_screening_proof
    # Load stored screening hash
    push.2 mem_load
    
    # Verify proof against stored hash
    # This would involve actual ZK proof verification
    dup.1 # Duplicate proof
    eq
    if.true
        push.1 # Proof valid
    else
        push.0 # Proof invalid
    end
end

# Manual override for sanctions status
# Input: [override_status, authorization_hash]
# Output: [success_flag]
proc.manual_override
    # Verify authorization (simplified)
    dup.1 push.0 neq
    if.true
        # Authorized, apply override
        dup.1 push.0 mem_store
        push.1 push.5 mem_store
        push.1 # Success
    else
        push.0 # Unauthorized
    end
end
"#;

/// What opens the reason of a failed KYC compilation.
pub const KYC_FAILURE_PREFIX: &'static str = "Failed to compile KYC component: ";

/// What opens the reason of a failed AML compilation.
pub const AML_FAILURE_PREFIX: &'static str = "Failed to compile AML component: ";

/// What opens the reason of a failed sanctions compilation.
pub const SANCTIONS_FAILURE_PREFIX: &'static str = "Failed to compile sanctions component: ";

/// Whether `failure` reports a failed compilation with a reason that opens
/// with `prefix`.
pub open spec fn is_compilation_failure(failure: ComplianceError, prefix: Seq<char>) -> bool {
    &&& failure is AccountComponentCompilationFailed
    &&& prefix.is_prefix_of(failure->AccountComponentCompilationFailed_reason@)
}

/// Whether `failure` reports the failed compilation that `cause` stands for:
/// its reason is `prefix` followed by the message that `cause` displays.
pub open spec fn is_compilation_failure_from(
    failure: ComplianceError,
    prefix: Seq<char>,
    cause: AccountError,
) -> bool {
    &&& failure is AccountComponentCompilationFailed
    &&& exists|message: String| #[trigger]
        to_string_from_display_ensures::<AccountError>(&cause, message)
            && failure->AccountComponentCompilationFailed_reason@ == prefix + message@
}

/// What `AccountComponent::compile` returns for a source under the assembler
/// of `TransactionKernel::assembler` and with no storage slots.
pub uninterp spec fn compiled_component(source_code: Seq<char>) -> Result<AccountComponent, AccountError>;

/// Whether `result` is the service's rendering of the assembler's verdict
/// `compiled`: the component itself, or a compilation failure whose reason is
/// `prefix` followed by the message that the assembler's failure displays.
pub open spec fn is_compilation_outcome(
    result: Result<AccountComponent, ComplianceError>,
    compiled: Result<AccountComponent, AccountError>,
    prefix: Seq<char>,
) -> bool {
    match compiled {
        Ok(component) => result == Ok::<AccountComponent, ComplianceError>(component),
        Err(cause) => {
            &&& result is Err
            &&& is_compilation_failure(result->Err_0, prefix)
            &&& is_compilation_failure_from(result->Err_0, prefix, cause)
        },
    }
}

/// `AccountComponent::compile`, called with the source, the assembler that
/// `TransactionKernel::assembler` returns and no storage slots. The result is
/// a function of the source text alone and has a name; nothing more is claimed.
#[verifier::external_body]
fn compile_source(source_code: &str) -> (compiled: Result<AccountComponent, AccountError>)
    ensures
        compiled == compiled_component(source_code@),
{
    AccountComponent::compile(source_code, TransactionKernel::assembler(), Vec::new())
}

/// Turns the assembler's verdict on a component into the service's own
/// result: a component is handed on as it is, a failure becomes a compilation
/// failure whose reason is `failure_prefix` followed by the message that the
/// assembler's failure displays.
pub fn compilation_result(
    compiled: Result<AccountComponent, AccountError>,
    failure_prefix: &str,
) -> (result: Result<AccountComponent, ComplianceError>)
    ensures
        is_compilation_outcome(result, compiled, failure_prefix@),
        result is Ok <==> compiled is Ok,
{
    match compiled {
        Ok(component) => Ok(component),
        Err(failure) => {
            let message = failure.to_string();
            let reason = String::from_str(failure_prefix).concat(message.as_str());
            assert(to_string_from_display_ensures::<AccountError>(&failure, message));
            Err(ComplianceError::AccountComponentCompilationFailed { reason })
        },
    }
}

/// Compile KYC account component
pub fn compile_kyc_component() -> (result: Result<AccountComponent, ComplianceError>)
    ensures
        is_compilation_of(result, KYC_ACCOUNT_COMPONENT_CODE@, KYC_FAILURE_PREFIX@),
        result is Ok <==> compiled_component(KYC_ACCOUNT_COMPONENT_CODE@) is Ok,
{
    let compiled = compile_source(KYC_ACCOUNT_COMPONENT_CODE);
    compilation_result(compiled, KYC_FAILURE_PREFIX)
}

/// Compile AML account component
pub fn compile_aml_component() -> (result: Result<AccountComponent, ComplianceError>)
    ensures
        is_compilation_of(result, AML_ACCOUNT_COMPONENT_CODE@, AML_FAILURE_PREFIX@),
        result is Ok <==> compiled_component(AML_ACCOUNT_COMPONENT_CODE@) is Ok,
{
    let compiled = compile_source(AML_ACCOUNT_COMPONENT_CODE);
    compilation_result(compiled, AML_FAILURE_PREFIX)
}

/// Compile sanctions screening component
pub fn compile_sanctions_component() -> (result: Result<AccountComponent, ComplianceError>)
    ensures
        is_compilation_of(result, SANCTIONS_SCREENING_COMPONENT_CODE@, SANCTIONS_FAILURE_PREFIX@),
        result is Ok <==> compiled_component(SANCTIONS_SCREENING_COMPONENT_CODE@) is Ok,
{
    let compiled = compile_source(SANCTIONS_SCREENING_COMPONENT_CODE);
    compilation_result(compiled, SANCTIONS_FAILURE_PREFIX)
}

/// Whether `result` is what compiling `source_code` comes to: the component
/// that the assembler makes of it, or the failure that it reports, with
/// `prefix` in front of the reason.
pub open spec fn is_compilation_of(
    result: Result<AccountComponent, ComplianceError>,
    source_code: Seq<char>,
    prefix: Seq<char>,
) -> bool {
    is_compilation_outcome(result, compiled_component(source_code), prefix)
}

} // verus!
