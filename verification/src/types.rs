//! Core compliance types shared by the state machines and the aggregator.

use vstd::prelude::*;

verus! {

/// `uuid::Uuid`, carried as it is: nothing is read of it.
#[verifier::external_type_specification]
#[verifier::external_body]
pub struct ExUuid(uuid::Uuid);

/// Seconds since the Unix epoch.
pub type Timestamp = i64;

/// Represents a KYC verification status.
#[derive(Debug, Clone, Copy, PartialEq, Eq, Structural)]
pub enum KycStatus {
    Pending,
    Verified,
    Rejected,
    Expired,
}

/// Represents an AML risk level.
#[derive(Debug, Clone, Copy, PartialEq, Eq, Structural)]
pub enum AmlRiskLevel {
    Low,
    Medium,
    High,
    Critical,
}

/// Compliance level requirements, from the least to the most strict.
#[derive(Debug, Clone, Copy, PartialEq, Eq, Structural)]
pub enum ComplianceLevel {
    Basic,
    Standard,
    Enhanced,
    InstitutionalGrade,
}

/// Compliance attestation: the time-bounded summary of one full compliance
/// check of an account. A refresh supersedes it with a new value; nothing
/// mutates it in place.
#[derive(Debug)]
pub struct ComplianceAttestation {
    pub id: uuid::Uuid,
    pub account_id: String,
    pub kyc_status: KycStatus,
    pub aml_risk_level: AmlRiskLevel,
    pub sanctions_cleared: bool,
    pub created_at: Timestamp,
    pub expires_at: Timestamp,
    pub proof_hash: String,
}

/// Business client configuration.
#[derive(Debug)]
pub struct BusinessClient {
    pub id: uuid::Uuid,
    pub name: String,
    pub api_key: String,
    pub webhook_url: Option<String>,
    pub compliance_level: ComplianceLevel,
    pub created_at: Timestamp,
}

impl Clone for ComplianceAttestation {
    fn clone(&self) -> (copy: Self)
        ensures
            copy == *self,
    {
        ComplianceAttestation {
            id: self.id,
            account_id: self.account_id.clone(),
            kyc_status: self.kyc_status,
            aml_risk_level: self.aml_risk_level,
            sanctions_cleared: self.sanctions_cleared,
            created_at: self.created_at,
            expires_at: self.expires_at,
            proof_hash: self.proof_hash.clone(),
        }
    }
}

impl Clone for BusinessClient {
    fn clone(&self) -> (copy: Self)
        ensures
            copy == *self,
    {
        BusinessClient {
            id: self.id,
            name: self.name.clone(),
            api_key: self.api_key.clone(),
            webhook_url: self.webhook_url.clone(),
            compliance_level: self.compliance_level,
            created_at: self.created_at,
        }
    }
}

impl AmlRiskLevel {
    /// Position of the level on the scale `Low < Medium < High < Critical`.
    pub open spec fn rank(self) -> nat {
        match self {
            AmlRiskLevel::Low => 0,
            AmlRiskLevel::Medium => 1,
            AmlRiskLevel::High => 2,
            AmlRiskLevel::Critical => 3,
        }
    }
}

impl ComplianceLevel {
    /// Position of the level on the scale
    /// `Basic < Standard < Enhanced < InstitutionalGrade`.
    pub open spec fn rank(self) -> nat {
        match self {
            ComplianceLevel::Basic => 0,
            ComplianceLevel::Standard => 1,
            ComplianceLevel::Enhanced => 2,
            ComplianceLevel::InstitutionalGrade => 3,
        }
    }
}

impl ComplianceAttestation {
    /// The tier policy: whether this attestation, read at time `now`,
    /// satisfies `level`.
    pub open spec fn satisfies(&self, level: ComplianceLevel, now: int) -> bool {
        let basic = self.kyc_status == KycStatus::Verified && self.sanctions_cleared;
        match level {
            ComplianceLevel::Basic => basic,
            ComplianceLevel::Standard => basic && (self.aml_risk_level == AmlRiskLevel::Low
                || self.aml_risk_level == AmlRiskLevel::Medium),
            ComplianceLevel::Enhanced => basic && self.aml_risk_level == AmlRiskLevel::Low,
            ComplianceLevel::InstitutionalGrade => basic && self.aml_risk_level
                == AmlRiskLevel::Low && now < self.expires_at,
        }
    }

    /// A stricter tier implies every laxer one: whatever satisfies `stricter`
    /// at `now` satisfies each tier at or below it at the same time.
    pub proof fn lemma_stricter_level_implies_laxer(
        &self,
        stricter: ComplianceLevel,
        laxer: ComplianceLevel,
        now: int,
    )
        requires
            laxer.rank() <= stricter.rank(),
            self.satisfies(stricter, now),
        ensures
            self.satisfies(laxer, now),
    {
    }

    /// The tiers form a chain: institutional grade implies enhanced, enhanced
    /// implies standard, and standard implies basic, for every attestation and
    /// at every time.
    pub proof fn lemma_levels_ordered(&self, now: int)
        ensures
            self.satisfies(ComplianceLevel::InstitutionalGrade, now) ==> self.satisfies(
                ComplianceLevel::Enhanced,
                now,
            ),
            self.satisfies(ComplianceLevel::Enhanced, now) ==> self.satisfies(
                ComplianceLevel::Standard,
                now,
            ),
            self.satisfies(ComplianceLevel::Standard, now) ==> self.satisfies(
                ComplianceLevel::Basic,
                now,
            ),
    {
    }
}

} // verus!
