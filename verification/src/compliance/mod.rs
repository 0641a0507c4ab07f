//! Core compliance modules: the three per-account state machines and the
//! service that aggregates their outcomes into attestations.

pub mod account_components;
pub mod aml;
pub mod kyc;
pub mod sanctions;

use vstd::prelude::*;

use crate::compliance::aml::AmlSnapshot;
use crate::compliance::kyc::KycSnapshot;
use crate::compliance::sanctions::{SanctionsSnapshot, SanctionsStatus};
use crate::error::ComplianceError;
use crate::types::{AmlRiskLevel, ComplianceAttestation, ComplianceLevel, KycStatus, Timestamp};

verus! {

/// Seconds in one day.
pub const SECONDS_PER_DAY: i64 = 86_400;

/// When an attestation made at `now` expires: with the KYC verification or at
/// the end of the validity window, whichever is sooner.
pub open spec fn attestation_expiry(
    kyc_expires_at: int,
    now: int,
    validity_period_days: int,
) -> int {
    let window_end = now + validity_period_days * SECONDS_PER_DAY;
    if kyc_expires_at <= window_end {
        kyc_expires_at
    } else {
        window_end
    }
}

/// Whether the attestation on file, if there is one, satisfies `level` at
/// `now`. An account with no attestation on file satisfies no level.
pub open spec fn level_met(
    attestation: Option<&ComplianceAttestation>,
    level: ComplianceLevel,
    now: int,
) -> bool {
    match attestation {
        Some(attestation) => attestation.satisfies(level, now),
        None => false,
    }
}

/// The attestation on file for an account after a check with the given
/// outcome: a new attestation supersedes whatever was there, a failed check
/// leaves it as it was.
pub open spec fn on_file_after(
    on_file: Option<ComplianceAttestation>,
    outcome: Result<ComplianceAttestation, ComplianceError>,
) -> Option<ComplianceAttestation> {
    match outcome {
        Ok(attestation) => Some(attestation),
        Err(_) => on_file,
    }
}

/// Reads the system clock through `chrono::Utc::now` and returns the time in
/// whole seconds since the Unix epoch, as `DateTime::timestamp` gives it. The
/// clock decides the value, so nothing is claimed of it. `Utc::now` panics
/// where the system clock stands before the epoch.
#[verifier::external_body]
fn current_timestamp() -> (now: Timestamp) {
    chrono::Utc::now().timestamp()
}

/// Main compliance service: merges the outcomes of the KYC, AML and sanctions
/// checks of an account into one attestation and decides which compliance
/// level an attestation satisfies.
pub struct ComplianceService {
    /// Days for which a new attestation is valid at most.
    pub validity_period_days: u32,
}

impl ComplianceService {
    /// Create a new compliance service whose attestations are valid for at
    /// most `validity_period_days` days.
    pub fn new(validity_period_days: u32) -> (service: Self)
        ensures
            service.validity_period_days == validity_period_days,
    {
        ComplianceService { validity_period_days }
    }

    /// The attestation that three successful checks at time `now` amount to:
    /// KYC status and AML level are taken over as they are, sanctions are
    /// cleared exactly when the screening status is `Clear`.
    pub open spec fn attestation_of(
        &self,
        id: uuid::Uuid,
        account_id: String,
        kyc: KycSnapshot,
        aml: AmlSnapshot,
        sanctions: SanctionsSnapshot,
        now: Timestamp,
        proof_hash: String,
    ) -> ComplianceAttestation {
        ComplianceAttestation {
            id,
            account_id,
            kyc_status: kyc.status,
            aml_risk_level: aml.risk_level,
            sanctions_cleared: sanctions.status == SanctionsStatus::Clear,
            created_at: now,
            expires_at: attestation_expiry(
                kyc.expires_at as int,
                now as int,
                self.validity_period_days as int,
            ) as i64,
            proof_hash,
        }
    }

    /// The outcome of a comprehensive check: the attestation when all three
    /// checks succeeded, else the failure of the first check that failed, in
    /// the order KYC, AML, sanctions.
    pub open spec fn check_outcome(
        &self,
        id: uuid::Uuid,
        account_id: String,
        kyc: Result<KycSnapshot, ComplianceError>,
        aml: Result<AmlSnapshot, ComplianceError>,
        sanctions: Result<SanctionsSnapshot, ComplianceError>,
        now: Timestamp,
        proof_hash: String,
    ) -> Result<ComplianceAttestation, ComplianceError> {
        match (kyc, aml, sanctions) {
            (Err(failure), _, _) => Err(failure),
            (Ok(_), Err(failure), _) => Err(failure),
            (Ok(_), Ok(_), Err(failure)) => Err(failure),
            (Ok(kyc), Ok(aml), Ok(sanctions)) => Ok(
                self.attestation_of(id, account_id, kyc, aml, sanctions, now, proof_hash),
            ),
        }
    }

    /// Builds the attestation of three successful checks at time `now`.
    pub fn generate_attestation(
        &self,
        id: uuid::Uuid,
        account_id: String,
        kyc: KycSnapshot,
        aml: AmlSnapshot,
        sanctions: SanctionsSnapshot,
        now: Timestamp,
        proof_hash: String,
    ) -> (attestation: ComplianceAttestation)
        ensures
            attestation == self.attestation_of(
                id,
                account_id,
                kyc,
                aml,
                sanctions,
                now,
                proof_hash,
            ),
            attestation.expires_at == attestation_expiry(
                kyc.expires_at as int,
                now as int,
                self.validity_period_days as int,
            ),
            attestation.expires_at <= kyc.expires_at,
            attestation.expires_at <= now + self.validity_period_days * SECONDS_PER_DAY,
    {
        let window: i64 = (self.validity_period_days as i64) * SECONDS_PER_DAY;
        let expires_at: Timestamp = match now.checked_add(window) {
            Some(window_end) => if kyc.expires_at <= window_end {
                kyc.expires_at
            } else {
                window_end
            },
            None => kyc.expires_at,
        };
        ComplianceAttestation {
            id,
            account_id,
            kyc_status: kyc.status,
            aml_risk_level: aml.risk_level,
            sanctions_cleared: sanctions.status == SanctionsStatus::Clear,
            created_at: now,
            expires_at,
            proof_hash,
        }
    }

    /// Perform comprehensive compliance check: merges the outcomes of the
    /// three checks of one account, made at time `now`, and keeps `on_file`,
    /// the account's current attestation, up to date.
    ///
    /// All three succeeded: the result is the new attestation, and it
    /// supersedes the one on file. Any failed: the result is the first
    /// failure, in the order KYC, AML, sanctions; no attestation is made, not
    /// even a partial one, and the one on file is what it was.
    pub fn comprehensive_check(
        &self,
        on_file: &mut Option<ComplianceAttestation>,
        id: uuid::Uuid,
        account_id: String,
        kyc: Result<KycSnapshot, ComplianceError>,
        aml: Result<AmlSnapshot, ComplianceError>,
        sanctions: Result<SanctionsSnapshot, ComplianceError>,
        now: Timestamp,
        proof_hash: String,
    ) -> (outcome: Result<ComplianceAttestation, ComplianceError>)
        ensures
            outcome == self.check_outcome(id, account_id, kyc, aml, sanctions, now, proof_hash),
            outcome is Ok <==> kyc is Ok && aml is Ok && sanctions is Ok,
            *final(on_file) == on_file_after(*old(on_file), outcome),
            outcome is Err ==> *final(on_file) == *old(on_file),
    {
        let kyc = match kyc {
            Ok(snapshot) => snapshot,
            Err(failure) => {
                return Err(failure);
            },
        };
        let aml = match aml {
            Ok(snapshot) => snapshot,
            Err(failure) => {
                return Err(failure);
            },
        };
        let sanctions = match sanctions {
            Ok(snapshot) => snapshot,
            Err(failure) => {
                return Err(failure);
            },
        };
        let attestation = self.generate_attestation(
            id,
            account_id,
            kyc,
            aml,
            sanctions,
            now,
            proof_hash,
        );
        *on_file = Some(attestation.clone());
        Ok(attestation)
    }

    /// Update compliance status for an account: re-runs the comprehensive
    /// check on fresh outcomes of the three checks.
    pub fn update_compliance_status(
        &self,
        on_file: &mut Option<ComplianceAttestation>,
        id: uuid::Uuid,
        account_id: String,
        kyc: Result<KycSnapshot, ComplianceError>,
        aml: Result<AmlSnapshot, ComplianceError>,
        sanctions: Result<SanctionsSnapshot, ComplianceError>,
        now: Timestamp,
        proof_hash: String,
    ) -> (outcome: Result<ComplianceAttestation, ComplianceError>)
        ensures
            outcome == self.check_outcome(id, account_id, kyc, aml, sanctions, now, proof_hash),
            outcome is Ok <==> kyc is Ok && aml is Ok && sanctions is Ok,
            *final(on_file) == on_file_after(*old(on_file), outcome),
            outcome is Err ==> *final(on_file) == *old(on_file),
    {
        self.comprehensive_check(on_file, id, account_id, kyc, aml, sanctions, now, proof_hash)
    }

    /// Check if the attestation on file, if any, meets compliance level
    /// requirements now. No attestation on file means no compliance; that is
    /// an answer, not an error.
    pub fn check_compliance_level(
        &self,
        attestation: Option<&ComplianceAttestation>,
        required_level: ComplianceLevel,
    ) -> (compliant: bool)
        ensures
            attestation is None ==> !compliant,
            exists|now: Timestamp| compliant == level_met(attestation, required_level, now as int),
            required_level != ComplianceLevel::InstitutionalGrade ==> compliant == level_met(
                attestation,
                required_level,
                0,
            ),
    {
        match attestation {
            Some(on_file) => {
                let compliant = self.meets_compliance_level(on_file, required_level);
                proof {
                    let now = choose|now: Timestamp|
                        compliant == on_file.satisfies(required_level, now as int);
                    assert(compliant == level_met(attestation, required_level, now as int));
                }
                compliant
            },
            None => {
                assert(!level_met(attestation, required_level, 0int));
                false
            },
        }
    }

    /// Checks whether an attestation meets a compliance level as of the
    /// system clock. Only the institutional grade depends on the time.
    pub fn meets_compliance_level(
        &self,
        attestation: &ComplianceAttestation,
        required_level: ComplianceLevel,
    ) -> (compliant: bool)
        ensures
            exists|now: Timestamp| compliant == attestation.satisfies(required_level, now as int),
            required_level != ComplianceLevel::InstitutionalGrade ==> compliant
                == attestation.satisfies(required_level, 0),
            compliant ==> attestation.satisfies(ComplianceLevel::Basic, 0),
    {
        let now = current_timestamp();
        self.meets_compliance_level_at(attestation, required_level, now)
    }

    /// Checks whether an attestation meets a compliance level at time `now`.
    ///
    /// Basic asks for a verified KYC status and cleared sanctions. Standard
    /// adds an AML risk of low or medium, enhanced an AML risk of low, and
    /// the institutional grade also that the attestation has not expired.
    pub fn meets_compliance_level_at(
        &self,
        attestation: &ComplianceAttestation,
        required_level: ComplianceLevel,
        now: Timestamp,
    ) -> (compliant: bool)
        ensures
            compliant == attestation.satisfies(required_level, now as int),
    {
        let basic = attestation.kyc_status == KycStatus::Verified && attestation.sanctions_cleared;
        match required_level {
            ComplianceLevel::Basic => basic,
            ComplianceLevel::Standard => basic && (attestation.aml_risk_level == AmlRiskLevel::Low
                || attestation.aml_risk_level == AmlRiskLevel::Medium),
            ComplianceLevel::Enhanced => basic && attestation.aml_risk_level == AmlRiskLevel::Low,
            ComplianceLevel::InstitutionalGrade => basic && attestation.aml_risk_level
                == AmlRiskLevel::Low && now < attestation.expires_at,
        }
    }

    /// Fail-fast aggregation: when one of the three checks fails, the
    /// comprehensive check fails too, and the attestation on file stays what
    /// it was.
    pub proof fn lemma_failed_check_leaves_file(
        &self,
        on_file: Option<ComplianceAttestation>,
        id: uuid::Uuid,
        account_id: String,
        kyc: Result<KycSnapshot, ComplianceError>,
        aml: Result<AmlSnapshot, ComplianceError>,
        sanctions: Result<SanctionsSnapshot, ComplianceError>,
        now: Timestamp,
        proof_hash: String,
    )
        requires
            kyc is Err || aml is Err || sanctions is Err,
        ensures
            self.check_outcome(id, account_id, kyc, aml, sanctions, now, proof_hash) is Err,
            on_file_after(
                on_file,
                self.check_outcome(id, account_id, kyc, aml, sanctions, now, proof_hash),
            ) == on_file,
    {
    }

    /// When the sanctions check is the one that fails, its failure is the
    /// outcome of the comprehensive check.
    pub proof fn lemma_sanctions_failure_surfaces(
        &self,
        id: uuid::Uuid,
        account_id: String,
        kyc: Result<KycSnapshot, ComplianceError>,
        aml: Result<AmlSnapshot, ComplianceError>,
        sanctions: Result<SanctionsSnapshot, ComplianceError>,
        now: Timestamp,
        proof_hash: String,
    )
        requires
            kyc is Ok,
            aml is Ok,
            sanctions is Err,
        ensures
            self.check_outcome(id, account_id, kyc, aml, sanctions, now, proof_hash) == Err::<
                ComplianceAttestation,
                ComplianceError,
            >(sanctions->Err_0),
    {
    }
}

} // verus!
