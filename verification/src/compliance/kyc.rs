//! KYC state machine: tracks the identity-verification status of one account.

use vstd::prelude::*;

use crate::types::{ComplianceLevel, KycStatus, Timestamp};

verus! {

/// Seconds for which a verification stays valid: one year.
pub const KYC_VALIDITY_SECONDS: i64 = 31_536_000;

/// Hash that identifies an authorized verifier. Two identities are the same
/// exactly when their hashes are equal; presenting the stored identity is what
/// authorizes a change of a record's protected fields.
#[derive(Debug, Clone, Copy, PartialEq, Eq, Structural)]
pub struct VerifierIdentity {
    pub hash: u64,
}

/// The KYC record of one account.
#[derive(Debug, Clone, Copy, PartialEq, Eq, Structural)]
pub struct KycRecord {
    pub status: KycStatus,
    /// Commitment to the KYC evidence.
    pub data_hash: u64,
    pub verified_at: Timestamp,
    pub expires_at: Timestamp,
    pub verifier: VerifierIdentity,
    pub compliance_level: ComplianceLevel,
}

/// What a read of the KYC state machine reports.
#[derive(Debug, Clone, Copy, PartialEq, Eq, Structural)]
pub struct KycSnapshot {
    pub status: KycStatus,
    pub verified_at: Timestamp,
    pub expires_at: Timestamp,
    pub compliance_level: ComplianceLevel,
}

impl KycRecord {
    /// The record of an account whose evidence is committed to by `data_hash`
    /// and that nobody has verified yet.
    pub open spec fn pending(data_hash: u64) -> KycRecord {
        KycRecord {
            status: KycStatus::Pending,
            data_hash,
            verified_at: 0,
            expires_at: 0,
            verifier: VerifierIdentity { hash: 0 },
            compliance_level: ComplianceLevel::Basic,
        }
    }

    /// Whether a verification that presents `provided_hash` reports success.
    pub open spec fn verify_succeeds(self, provided_hash: u64) -> bool {
        self.status == KycStatus::Verified || provided_hash == self.data_hash
    }

    /// Whether a verification that presents `provided_hash` rewrites the
    /// record: it does so when the record is not verified yet and the hash is
    /// the committed one.
    pub open spec fn verify_transitions(self, provided_hash: u64) -> bool {
        self.status != KycStatus::Verified && provided_hash == self.data_hash
    }

    /// The record after a verification at time `now`.
    pub open spec fn after_verify(
        self,
        provided_hash: u64,
        verifier: VerifierIdentity,
        compliance_level: ComplianceLevel,
        now: Timestamp,
    ) -> KycRecord {
        if self.verify_transitions(provided_hash) {
            KycRecord {
                status: KycStatus::Verified,
                data_hash: self.data_hash,
                verified_at: now,
                expires_at: (now + KYC_VALIDITY_SECONDS) as i64,
                verifier,
                compliance_level,
            }
        } else {
            self
        }
    }

    /// The status as derived at time `now`: a verified record whose validity
    /// has run out reads as expired, every other record as stored.
    pub open spec fn effective_status(self, now: Timestamp) -> KycStatus {
        if self.status == KycStatus::Verified && now >= self.expires_at {
            KycStatus::Expired
        } else {
            self.status
        }
    }

    /// Verification is idempotent: once a record is verified, a further
    /// verification reports success and leaves the record as it is, whatever
    /// hash, verifier, level and time it presents.
    pub proof fn lemma_verify_idempotent(
        self,
        provided_hash: u64,
        verifier: VerifierIdentity,
        compliance_level: ComplianceLevel,
        now: Timestamp,
    )
        requires
            self.status == KycStatus::Verified,
        ensures
            self.verify_succeeds(provided_hash),
            self.after_verify(provided_hash, verifier, compliance_level, now) == self,
    {
    }

    /// A verification that succeeds leaves a verified record, on which every
    /// further verification is idempotent.
    pub proof fn lemma_verify_reaches_verified(
        self,
        provided_hash: u64,
        verifier: VerifierIdentity,
        compliance_level: ComplianceLevel,
        now: Timestamp,
    )
        requires
            self.verify_succeeds(provided_hash),
        ensures
            self.after_verify(provided_hash, verifier, compliance_level, now).status
                == KycStatus::Verified,
    {
    }

    /// What a read reports of this record.
    pub open spec fn snapshot(self) -> KycSnapshot {
        KycSnapshot {
            status: self.status,
            verified_at: self.verified_at,
            expires_at: self.expires_at,
            compliance_level: self.compliance_level,
        }
    }
}

/// The state machine that exclusively owns one account's KYC record.
pub struct KycStateMachine {
    record: KycRecord,
}

impl View for KycStateMachine {
    type V = KycRecord;

    closed spec fn view(&self) -> KycRecord {
        self.record
    }
}

impl KycStateMachine {
    /// Starts the state machine of an account that is pending verification.
    pub fn new(data_hash: u64) -> (machine: Self)
        ensures
            machine@ == KycRecord::pending(data_hash),
    {
        KycStateMachine {
            record: KycRecord {
                status: KycStatus::Pending,
                data_hash,
                verified_at: 0,
                expires_at: 0,
                verifier: VerifierIdentity { hash: 0 },
                compliance_level: ComplianceLevel::Basic,
            },
        }
    }

    /// Resumes the state machine from a stored record.
    pub fn from_record(record: KycRecord) -> (machine: Self)
        ensures
            machine@ == record,
    {
        KycStateMachine { record }
    }

    /// The record as it stands.
    pub fn record(&self) -> (record: KycRecord)
        ensures
            record == self@,
    {
        self.record
    }

    /// Verifies the account against the committed evidence.
    ///
    /// On an already verified record this reports success and changes
    /// nothing, whatever hash is presented. Otherwise it succeeds exactly when
    /// `provided_hash` is the committed hash, and then stores the verifier and
    /// the level and opens a validity of one year from `now`. On a mismatch
    /// the record stays as it was.
    pub fn verify(
        &mut self,
        provided_hash: u64,
        verifier: VerifierIdentity,
        compliance_level: ComplianceLevel,
        now: Timestamp,
    ) -> (verified: bool)
        requires
            old(self)@.verify_transitions(provided_hash) ==> now + KYC_VALIDITY_SECONDS
                <= i64::MAX,
        ensures
            verified == old(self)@.verify_succeeds(provided_hash),
            final(self)@ == old(self)@.after_verify(
                provided_hash,
                verifier,
                compliance_level,
                now,
            ),
            old(self)@.status == KycStatus::Verified ==> verified && final(self)@ == old(self)@,
            old(self)@.verify_transitions(provided_hash) ==> final(self)@.verified_at == now
                && final(self)@.expires_at == now + KYC_VALIDITY_SECONDS,
            verified ==> final(self)@.status == KycStatus::Verified,
            !verified ==> final(self)@ == old(self)@,
    {
        if self.record.status == KycStatus::Verified {
            return true;
        }
        if provided_hash == self.record.data_hash {
            self.record = KycRecord {
                status: KycStatus::Verified,
                data_hash: self.record.data_hash,
                verified_at: now,
                expires_at: now + KYC_VALIDITY_SECONDS,
                verifier,
                compliance_level,
            };
            true
        } else {
            false
        }
    }

    /// Reads the stored status, the verification and expiry times and the
    /// compliance level.
    pub fn status(&self) -> (snapshot: KycSnapshot)
        ensures
            snapshot == self@.snapshot(),
    {
        KycSnapshot {
            status: self.record.status,
            verified_at: self.record.verified_at,
            expires_at: self.record.expires_at,
            compliance_level: self.record.compliance_level,
        }
    }

    /// Reads the status as it holds at `now`: expiry is derived on read and
    /// never stored.
    pub fn effective_status(&self, now: Timestamp) -> (status: KycStatus)
        ensures
            status == self@.effective_status(now),
    {
        if self.record.status == KycStatus::Verified && now >= self.record.expires_at {
            KycStatus::Expired
        } else {
            self.record.status
        }
    }

    /// Reads the compliance level.
    pub fn compliance_level(&self) -> (level: ComplianceLevel)
        ensures
            level == self@.compliance_level,
    {
        self.record.compliance_level
    }

    /// Sets the status on behalf of `verifier`. Only the stored verifier is
    /// authorized: anyone else is refused and the record stays as it was.
    pub fn update_status(
        &mut self,
        new_status: KycStatus,
        verifier: VerifierIdentity,
    ) -> (updated: bool)
        ensures
            updated == (verifier == old(self)@.verifier),
            updated ==> final(self)@ == (KycRecord { status: new_status, ..old(self)@ }),
            !updated ==> final(self)@ == old(self)@,
    {
        if verifier == self.record.verifier {
            self.record.status = new_status;
            true
        } else {
            false
        }
    }

    /// Sets the compliance level on behalf of `verifier`, under the same
    /// authorization rule as [`KycStateMachine::update_status`].
    pub fn update_compliance_level(
        &mut self,
        new_level: ComplianceLevel,
        verifier: VerifierIdentity,
    ) -> (updated: bool)
        ensures
            updated == (verifier == old(self)@.verifier),
            updated ==> final(self)@ == (KycRecord { compliance_level: new_level, ..old(self)@ }),
            !updated ==> final(self)@ == old(self)@,
    {
        if verifier == self.record.verifier {
            self.record.compliance_level = new_level;
            true
        } else {
            false
        }
    }

    /// Checks a proof commitment against the committed evidence: the proof
    /// holds exactly when `commitment` is the stored hash. The challenge does
    /// not enter the comparison.
    pub fn verify_proof(&self, commitment: u64, challenge: u64) -> (valid: bool)
        ensures
            valid == (commitment == self@.data_hash),
    {
        commitment == self.record.data_hash
    }
}

} // verus!
