//! Sanctions screening engine: tracks the sanctions-list screening of one
//! account.

use vstd::prelude::*;

use crate::types::Timestamp;

verus! {

/// Modulus that cuts the status code out of a screening proof.
pub const STATUS_CODE_MODULUS: u64 = 1000;

/// Status code of a clear screening.
pub const STATUS_CODE_CLEAR: u64 = 0;

/// Status code of a flagged screening.
pub const STATUS_CODE_FLAGGED: u64 = 1;

/// Status code of a blocked screening.
pub const STATUS_CODE_BLOCKED: u64 = 2;

/// Outcome of a sanctions screening.
#[derive(Debug, Clone, Copy, PartialEq, Eq, Structural)]
pub enum SanctionsStatus {
    Clear,
    Flagged,
    Blocked,
}

/// How far a screening result can be trusted.
#[derive(Debug, Clone, Copy, PartialEq, Eq, Structural)]
pub enum Confidence {
    Low,
    High,
}

/// The sanctions record of one account.
#[derive(Debug, Clone, Copy, PartialEq, Eq, Structural)]
pub struct SanctionsRecord {
    pub status: SanctionsStatus,
    pub last_screened_at: Timestamp,
    /// Commitment to the screening evidence and the list version used.
    pub screening_hash: u64,
    pub list_version: u64,
    pub false_positive: bool,
    pub manual_override: bool,
}

/// What a read of the sanctions screening engine reports.
#[derive(Debug, Clone, Copy, PartialEq, Eq, Structural)]
pub struct SanctionsSnapshot {
    pub status: SanctionsStatus,
    pub last_screened_at: Timestamp,
    pub screening_hash: u64,
}

/// The status that a status code stands for. A code that names no status is
/// read as `Flagged`, so that a person reviews it.
pub open spec fn status_for_code(code: int) -> SanctionsStatus {
    if code == STATUS_CODE_CLEAR {
        SanctionsStatus::Clear
    } else if code == STATUS_CODE_FLAGGED {
        SanctionsStatus::Flagged
    } else if code == STATUS_CODE_BLOCKED {
        SanctionsStatus::Blocked
    } else {
        SanctionsStatus::Flagged
    }
}

/// The status that a screening under list `sanctions_list_hash` with proof
/// `screening_proof` arrives at: the proof holds when it equals the list hash
/// and then carries the status code in its last three decimal digits; a proof
/// that does not hold gives `Flagged`.
pub open spec fn screened_status(
    sanctions_list_hash: u64,
    screening_proof: u64,
) -> SanctionsStatus {
    if screening_proof == sanctions_list_hash {
        status_for_code(screening_proof as int % STATUS_CODE_MODULUS as int)
    } else {
        SanctionsStatus::Flagged
    }
}

/// The confidence of the same screening: high exactly when the proof holds.
pub open spec fn screened_confidence(
    sanctions_list_hash: u64,
    screening_proof: u64,
) -> Confidence {
    if screening_proof == sanctions_list_hash {
        Confidence::High
    } else {
        Confidence::Low
    }
}

impl SanctionsStatus {
    /// Reads a status code.
    pub fn from_code(code: u64) -> (status: SanctionsStatus)
        ensures
            status == status_for_code(code as int),
    {
        if code == STATUS_CODE_CLEAR {
            SanctionsStatus::Clear
        } else if code == STATUS_CODE_FLAGGED {
            SanctionsStatus::Flagged
        } else if code == STATUS_CODE_BLOCKED {
            SanctionsStatus::Blocked
        } else {
            SanctionsStatus::Flagged
        }
    }
}

impl SanctionsRecord {
    /// The record of an account that was never screened.
    pub open spec fn initial() -> SanctionsRecord {
        SanctionsRecord {
            status: SanctionsStatus::Clear,
            last_screened_at: 0,
            screening_hash: 0,
            list_version: 0,
            false_positive: false,
            manual_override: false,
        }
    }

    /// The record after a screening at time `now`. The manual-override mark
    /// is among the fields that a screening leaves alone.
    pub open spec fn after_screen(
        self,
        sanctions_list_hash: u64,
        screening_proof: u64,
        now: Timestamp,
    ) -> SanctionsRecord {
        SanctionsRecord {
            status: screened_status(sanctions_list_hash, screening_proof),
            last_screened_at: now,
            screening_hash: sanctions_list_hash,
            ..self
        }
    }

    /// What a read reports of this record.
    pub open spec fn snapshot(self) -> SanctionsSnapshot {
        SanctionsSnapshot {
            status: self.status,
            last_screened_at: self.last_screened_at,
            screening_hash: self.screening_hash,
        }
    }
}

/// The engine that exclusively owns one account's sanctions record.
pub struct SanctionsScreeningEngine {
    record: SanctionsRecord,
}

impl View for SanctionsScreeningEngine {
    type V = SanctionsRecord;

    closed spec fn view(&self) -> SanctionsRecord {
        self.record
    }
}

impl SanctionsScreeningEngine {
    /// Starts the engine of an account that was never screened.
    pub fn new() -> (engine: Self)
        ensures
            engine@ == SanctionsRecord::initial(),
    {
        SanctionsScreeningEngine {
            record: SanctionsRecord {
                status: SanctionsStatus::Clear,
                last_screened_at: 0,
                screening_hash: 0,
                list_version: 0,
                false_positive: false,
                manual_override: false,
            },
        }
    }

    /// Resumes the engine from a stored record.
    pub fn from_record(record: SanctionsRecord) -> (engine: Self)
        ensures
            engine@ == record,
    {
        SanctionsScreeningEngine { record }
    }

    /// The record as it stands.
    pub fn record(&self) -> (record: SanctionsRecord)
        ensures
            record == self@,
    {
        self.record
    }

    /// Screens the account against a sanctions list at time `now` and returns
    /// the status with the confidence in it.
    ///
    /// The list hash and the time are stored whatever the outcome. A proof
    /// that holds against the stored hash decides the status and gives high
    /// confidence; one that does not leaves the account `Flagged` with low
    /// confidence, whatever its status was. A manual-override mark stays as
    /// it is. The identity hash does not enter the outcome.
    pub fn screen(
        &mut self,
        identity_hash: u64,
        sanctions_list_hash: u64,
        screening_proof: u64,
        now: Timestamp,
    ) -> (outcome: (SanctionsStatus, Confidence))
        ensures
            final(self)@ == old(self)@.after_screen(sanctions_list_hash, screening_proof, now),
            outcome.0 == screened_status(sanctions_list_hash, screening_proof),
            outcome.1 == screened_confidence(sanctions_list_hash, screening_proof),
            screening_proof != sanctions_list_hash ==> outcome == (
                SanctionsStatus::Flagged,
                Confidence::Low,
            ),
            final(self)@.manual_override == old(self)@.manual_override,
    {
        self.record.screening_hash = sanctions_list_hash;
        self.record.last_screened_at = now;
        if self.verify_proof(screening_proof) {
            let status = SanctionsStatus::from_code(screening_proof % STATUS_CODE_MODULUS);
            self.record.status = status;
            (status, Confidence::High)
        } else {
            self.record.status = SanctionsStatus::Flagged;
            (SanctionsStatus::Flagged, Confidence::Low)
        }
    }

    /// Checks a screening proof against the stored screening hash: the proof
    /// holds exactly when the two are equal.
    pub fn verify_proof(&self, proof: u64) -> (valid: bool)
        ensures
            valid == (proof == self@.screening_hash),
    {
        proof == self.record.screening_hash
    }

    /// Sets the status by hand at time `now`. It always succeeds, marks the
    /// record as manually overridden and refreshes the screening time. The
    /// reason is not stored.
    pub fn update_status(
        &mut self,
        new_status: SanctionsStatus,
        reason: u64,
        now: Timestamp,
    ) -> (updated: bool)
        ensures
            updated,
            final(self)@ == (SanctionsRecord {
                status: new_status,
                manual_override: true,
                last_screened_at: now,
                ..old(self)@
            }),
    {
        self.record.status = new_status;
        self.record.manual_override = true;
        self.record.last_screened_at = now;
        true
    }

    /// Overrides the status under an authorization hash. Any hash but zero
    /// authorizes: the status is then set and the record marked as manually
    /// overridden. With a zero hash the call is refused and nothing changes.
    pub fn manual_override(
        &mut self,
        status: SanctionsStatus,
        authorization_hash: u64,
    ) -> (overridden: bool)
        ensures
            overridden == (authorization_hash != 0),
            overridden ==> final(self)@ == (SanctionsRecord {
                status,
                manual_override: true,
                ..old(self)@
            }),
            !overridden ==> final(self)@ == old(self)@,
    {
        if authorization_hash != 0 {
            self.record.status = status;
            self.record.manual_override = true;
            true
        } else {
            false
        }
    }

    /// Reads the status, the time of the last screening and the screening
    /// hash.
    pub fn status(&self) -> (snapshot: SanctionsSnapshot)
        ensures
            snapshot == self@.snapshot(),
    {
        SanctionsSnapshot {
            status: self.record.status,
            last_screened_at: self.record.last_screened_at,
            screening_hash: self.record.screening_hash,
        }
    }
}

} // verus!
